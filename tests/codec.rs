use airplay_rtsp::codec::{
    codec_config, detect_codec, extract_codec_record, find_box_payload, CodecPipelineSpec,
    VideoCodec,
};

fn boxed(tag: &[u8; 4], body: &[u8]) -> Vec<u8> {
    let mut out = ((body.len() + 8) as u32).to_be_bytes().to_vec();
    out.extend_from_slice(tag);
    out.extend_from_slice(body);
    out
}

const PAYLOAD: [u8; 5] = [1, 0x64, 0, 0x1f, 0xff];

#[test]
fn detect_hvc1_is_h265() {
    let header = [0, 0, 0, 16, b'h', b'v', b'c', b'1', 0, 0];
    assert_eq!(detect_codec(&header), VideoCodec::H265);
}

#[test]
fn detect_other_tag_is_h264() {
    let header = [0, 0, 0, 16, b'a', b'v', b'c', b'1'];
    assert_eq!(detect_codec(&header), VideoCodec::H264);
    let header = [0, 0, 0, 16, b'h', b'e', b'v', b'1'];
    assert_eq!(detect_codec(&header), VideoCodec::H264);
}

#[test]
fn detect_short_is_unknown() {
    assert_eq!(detect_codec(&[]), VideoCodec::Unknown);
    assert_eq!(detect_codec(&[0, 0, 0, 16, b'h', b'v', b'c']), VideoCodec::Unknown);
}

#[test]
fn raw_record_returned_verbatim() {
    let header = [0x01, 0x64, 0x00, 0x1F, 0xFF, 0xE1, 0x00, 0x17];
    for codec in [VideoCodec::H264, VideoCodec::H265, VideoCodec::Unknown] {
        assert_eq!(extract_codec_record(&header, codec), Some(header.to_vec()));
    }
}

#[test]
fn unknown_codec_has_no_marker() {
    let buf = boxed(b"avcC", &PAYLOAD[1..]);
    assert_eq!(extract_codec_record(&buf, VideoCodec::Unknown), None);
}

#[test]
fn extract_uses_family_marker() {
    let buf = [boxed(b"hvcC", &[9, 9]), boxed(b"avcC", &[7])].concat();
    assert_eq!(extract_codec_record(&buf, VideoCodec::H264), Some(vec![7]));
    assert_eq!(extract_codec_record(&buf, VideoCodec::H265), Some(vec![9, 9]));
}

#[test]
fn top_level_box_payload() {
    let buf = boxed(b"avcC", &PAYLOAD);
    assert_eq!(find_box_payload(&buf, b"avcC"), Some(PAYLOAD.to_vec()));
    let mut trailing = buf.clone();
    trailing.extend_from_slice(&[1, 2, 3]);
    assert_eq!(find_box_payload(&trailing, b"avcC"), Some(PAYLOAD.to_vec()));
}

#[test]
fn box_inside_container() {
    let buf = boxed(b"stbl", &boxed(b"avcC", &PAYLOAD));
    assert_eq!(find_box_payload(&buf, b"avcC"), Some(PAYLOAD.to_vec()));
}

#[test]
fn box_inside_sample_entry() {
    let mut body = vec![0u8; 78];
    body.extend(boxed(b"avcC", &PAYLOAD));
    let buf = boxed(b"avc1", &body);
    assert_eq!(find_box_payload(&buf, b"avcC"), Some(PAYLOAD.to_vec()));
}

#[test]
fn box_deeply_nested() {
    let mut entry = vec![0u8; 78];
    entry.extend(boxed(b"hvcC", &[4, 5, 6]));
    let buf = boxed(
        b"trak",
        &boxed(b"mdia", &boxed(b"minf", &boxed(b"stbl", &boxed(b"stsd", &boxed(b"hvc1", &entry))))),
    );
    assert_eq!(find_box_payload(&buf, b"hvcC"), Some(vec![4, 5, 6]));
}

#[test]
fn unknown_box_skipped_unread() {
    let hidden = boxed(b"free", &boxed(b"avcC", &[1]));
    let buf = [hidden, boxed(b"avcC", &[2])].concat();
    assert_eq!(find_box_payload(&buf, b"avcC"), Some(vec![2]));
}

#[test]
fn zero_length_extends_to_end() {
    let mut buf = vec![0, 0, 0, 0];
    buf.extend_from_slice(b"avcC");
    buf.extend_from_slice(&[3, 4]);
    assert_eq!(find_box_payload(&buf, b"avcC"), Some(vec![3, 4]));
}

#[test]
fn malformed_buffers_not_found() {
    assert_eq!(find_box_payload(&[], b"avcC"), None);
    assert_eq!(find_box_payload(&[0, 0, 0, 8, b'a', b'v', b'c'], b"avcC"), None);
    let too_long = [0, 0, 0, 64, b'a', b'v', b'c', b'C', 1, 2];
    assert_eq!(find_box_payload(&too_long, b"avcC"), None);
    let too_short = [0, 0, 0, 7, b'a', b'v', b'c', b'C', 1, 2];
    assert_eq!(find_box_payload(&too_short, b"avcC"), None);
}

#[test]
fn malformed_child_does_not_block_sibling() {
    let broken = [0, 0, 0, 200, b'a', b'v', b'c', b'C'];
    let buf = [boxed(b"trak", &broken), boxed(b"avcC", &[5])].concat();
    assert_eq!(find_box_payload(&buf, b"avcC"), Some(vec![5]));
}

#[test]
fn config_falls_back_to_header() {
    let header = boxed(b"avc1", &[0u8; 4]);
    let (codec, record) = codec_config(&header);
    assert_eq!(codec, VideoCodec::H264);
    assert_eq!(record, header);
}

#[test]
fn config_extracts_record() {
    let mut entry = vec![0u8; 78];
    entry.extend(boxed(b"hvcC", &[8, 8]));
    let header = boxed(b"hvc1", &entry);
    let (codec, record) = codec_config(&header);
    assert_eq!(codec, VideoCodec::H265);
    assert_eq!(record, vec![8, 8]);
}

#[test]
fn pipeline_parameters_per_codec() {
    let h265 = CodecPipelineSpec::from(VideoCodec::H265);
    assert_eq!(h265.caps_mime, "video/x-h265");
    assert_eq!(h265.stream_format, "hvc1");
    assert_eq!(h265.parser, "h265parse");
    let h264 = CodecPipelineSpec::from(VideoCodec::Unknown);
    assert_eq!(h264.caps_mime, "video/x-h264");
    assert_eq!(h264.stream_format, "avc");
    assert_eq!(h264.parser, "h264parse");
    assert_eq!(h264.decoder, "vtdec_hw");
}
