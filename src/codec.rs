//! Codec detection and a walker over length-prefixed, tagged boxes.
use vstd::prelude::*;

verus! {

/// Codec family of a video stream, as told by its first header.
#[derive(Clone, Copy, Debug, PartialEq, Eq, Structural)]
pub enum VideoCodec {
    H264,
    H265,
    Unknown,
}

/// Size of a box header: a 4-byte big-endian length and a 4-byte tag.
pub const BOX_HEADER_LEN: usize = 8;

/// Fixed fields of a visual sample entry that precede its child boxes.
pub const VIDEO_SAMPLE_ENTRY_FIELDS_LEN: usize = 78;

pub const TAG_AVCC: u32 = 0x61766343;

pub const TAG_HVCC: u32 = 0x68766343;

pub const TAG_AVC1: u32 = 0x61766331;

pub const TAG_HVC1: u32 = 0x68766331;

pub const TAG_HEV1: u32 = 0x68657631;

pub const TAG_STSD: u32 = 0x73747364;

pub const TAG_TRAK: u32 = 0x7472616b;

pub const TAG_MDIA: u32 = 0x6d646961;

pub const TAG_MINF: u32 = 0x6d696e66;

pub const TAG_STBL: u32 = 0x7374626c;

/// The big-endian 32-bit value of the four bytes of `b` at `i`.
pub open spec fn be32(b: Seq<u8>, i: int) -> int {
    b[i] * 16777216 + b[i + 1] * 65536 + b[i + 2] * 256 + b[i + 3]
}

/// Tags of sample entries whose children follow the fixed fields.
pub open spec fn is_sample_entry(tag: int) -> bool {
    tag == TAG_AVC1 || tag == TAG_HVC1 || tag == TAG_HEV1
}

/// Tags of generic containers whose body is a sequence of boxes.
pub open spec fn is_container(tag: int) -> bool {
    tag == TAG_STSD || tag == TAG_TRAK || tag == TAG_MDIA || tag == TAG_MINF || tag == TAG_STBL
}

/// The length a box at `cursor` occupies: its declared length, where zero
/// means "up to `limit`".
pub open spec fn box_size(b: Seq<u8>, cursor: int, limit: int) -> int {
    if be32(b, cursor) == 0 {
        limit - cursor
    } else {
        be32(b, cursor)
    }
}

/// Depth-first search of the boxes in `b[cursor..limit]` for the first box
/// tagged `marker`, giving its payload. A box whose length is under the
/// header size or runs past `limit` ends the search of that range.
pub open spec fn walk(b: Seq<u8>, cursor: int, limit: int, marker: int) -> Option<Seq<u8>>
    decreases limit - cursor,
{
    if cursor < 0 || limit > b.len() || cursor + 8 > limit {
        None
    } else {
        let size = box_size(b, cursor, limit);
        if size < 8 || cursor + size > limit {
            None
        } else {
            let tag = be32(b, cursor + 4);
            if tag == marker {
                Some(b.subrange(cursor + 8, cursor + size))
            } else {
                let inner = if is_sample_entry(tag) && 86 < size {
                    walk(b, cursor + 86, cursor + size, marker)
                } else if is_container(tag) && 8 < size {
                    walk(b, cursor + 8, cursor + size, marker)
                } else {
                    None
                };
                if inner is Some {
                    inner
                } else {
                    walk(b, cursor + size, limit, marker)
                }
            }
        }
    }
}

/// The payload of the first box tagged `marker` anywhere in `b`.
pub open spec fn box_payload(b: Seq<u8>, marker: Seq<u8>) -> Option<Seq<u8>> {
    walk(b, 0, b.len() as int, be32(marker, 0))
}

/// A box at `c` whose length fits the range and whose tag is `marker` is
/// the match, and its payload runs to its declared end.
proof fn lemma_walk_hit(b: Seq<u8>, c: int, lim: int, marker: int)
    requires
        0 <= c,
        c + 8 <= lim <= b.len(),
        8 <= be32(b, c) <= lim - c,
        be32(b, c + 4) == marker,
    ensures
        walk(b, c, lim, marker) == Some(b.subrange(c + 8, c + be32(b, c))),
{
}

/// A buffer that starts with a box tagged `marker`, whose length field
/// claims its 8 header bytes and `payload`, yields exactly `payload`.
pub proof fn lemma_top_level_payload(
    header: Seq<u8>,
    payload: Seq<u8>,
    rest: Seq<u8>,
    marker: Seq<u8>,
)
    requires
        header.len() == 8,
        marker.len() == 4,
        be32(header, 0) == 8 + payload.len(),
        header.subrange(4, 8) == marker,
    ensures
        box_payload(header + payload + rest, marker) == Some(payload),
{
    let b = header + payload + rest;
    assert(forall|i: int| 0 <= i < 8 ==> b[i] == header[i]);
    assert(forall|i: int| 0 <= i < 4 ==> header[4 + i] == marker[i]) by {
        assert forall|i: int| 0 <= i < 4 implies header[4 + i] == marker[i] by {
            assert(header.subrange(4, 8)[i] == header[4 + i]);
        }
    }
    lemma_walk_hit(b, 0, b.len() as int, be32(marker, 0));
    assert(b.subrange(8, 8 + payload.len() as int) =~= payload);
}

/// The same box inside a generic container, whose length field claims
/// exactly its header and the box, yields the same payload.
pub proof fn lemma_container_payload(
    outer: Seq<u8>,
    header: Seq<u8>,
    payload: Seq<u8>,
    rest: Seq<u8>,
    marker: Seq<u8>,
)
    requires
        outer.len() == 8,
        header.len() == 8,
        marker.len() == 4,
        be32(outer, 0) == 16 + payload.len(),
        is_container(be32(outer, 4)),
        be32(outer, 4) != be32(marker, 0),
        be32(header, 0) == 8 + payload.len(),
        header.subrange(4, 8) == marker,
    ensures
        box_payload(outer + header + payload + rest, marker) == Some(payload),
{
    let b = outer + header + payload + rest;
    assert(forall|i: int| 0 <= i < 8 ==> b[i] == outer[i]);
    assert(forall|i: int| 0 <= i < 8 ==> b[8 + i] == header[i]);
    assert(forall|i: int| 0 <= i < 4 ==> header[4 + i] == marker[i]) by {
        assert forall|i: int| 0 <= i < 4 implies header[4 + i] == marker[i] by {
            assert(header.subrange(4, 8)[i] == header[4 + i]);
        }
    }
    let m = be32(marker, 0);
    let end = 16 + payload.len() as int;
    lemma_walk_hit(b, 8, end, m);
    assert(b.subrange(16, end) =~= payload);
}

/// The same box as the first child of a sample entry, after the entry's
/// 78 bytes of fixed fields, yields the same payload.
pub proof fn lemma_sample_entry_payload(
    outer: Seq<u8>,
    fields: Seq<u8>,
    header: Seq<u8>,
    payload: Seq<u8>,
    rest: Seq<u8>,
    marker: Seq<u8>,
)
    requires
        outer.len() == 8,
        fields.len() == 78,
        header.len() == 8,
        marker.len() == 4,
        be32(outer, 0) == 94 + payload.len(),
        is_sample_entry(be32(outer, 4)),
        be32(outer, 4) != be32(marker, 0),
        be32(header, 0) == 8 + payload.len(),
        header.subrange(4, 8) == marker,
    ensures
        box_payload(outer + fields + header + payload + rest, marker) == Some(payload),
{
    let b = outer + fields + header + payload + rest;
    assert(forall|i: int| 0 <= i < 8 ==> b[i] == outer[i]);
    assert(forall|i: int| 0 <= i < 8 ==> b[86 + i] == header[i]);
    assert(forall|i: int| 0 <= i < 4 ==> header[4 + i] == marker[i]) by {
        assert forall|i: int| 0 <= i < 4 implies header[4 + i] == marker[i] by {
            assert(header.subrange(4, 8)[i] == header[4 + i]);
        }
    }
    let m = be32(marker, 0);
    let end = 94 + payload.len() as int;
    lemma_walk_hit(b, 86, end, m);
    assert(b.subrange(94, end) =~= payload);
}

/// Nothing is found in a buffer too short for a box header, nor in one whose
/// first box declares a length past the buffer's end or a nonzero length
/// under the header size.
pub proof fn lemma_malformed_not_found(b: Seq<u8>, marker: Seq<u8>)
    requires
        b.len() < 8 || be32(b, 0) > b.len() || (be32(b, 0) != 0 && be32(b, 0) < 8),
    ensures
        box_payload(b, marker) is None,
{
}

pub open spec fn view_bytes(r: Option<Vec<u8>>) -> Option<Seq<u8>> {
    match r {
        Some(v) => Some(v@),
        None => None,
    }
}

fn read_be32(b: &[u8], i: usize) -> (r: u32)
    requires
        i + 4 <= b@.len(),
    ensures
        r as int == be32(b@, i as int),
{
    (b[i] as u32) * 16777216 + (b[i + 1] as u32) * 65536 + (b[i + 2] as u32) * 256 + (b[i + 3] as u32)
}

fn copy_range(b: &[u8], start: usize, end: usize) -> (r: Vec<u8>)
    requires
        start <= end <= b@.len(),
    ensures
        r@ == b@.subrange(start as int, end as int),
{
    let mut out: Vec<u8> = Vec::new();
    let mut i: usize = start;
    while i < end
        invariant
            start <= i <= end <= b@.len(),
            out@ == b@.subrange(start as int, i as int),
        decreases end - i,
    {
        out.push(b[i]);
        i = i + 1;
    }
    out
}

fn parse_range(buf: &[u8], start: usize, limit: usize, marker: u32) -> (r: Option<Vec<u8>>)
    requires
        start <= limit <= buf@.len(),
    ensures
        view_bytes(r) == walk(buf@, start as int, limit as int, marker as int),
    decreases limit - start,
{
    let mut cursor: usize = start;
    while limit - cursor >= BOX_HEADER_LEN
        invariant
            start <= cursor <= limit <= buf@.len(),
            walk(buf@, start as int, limit as int, marker as int) == walk(
                buf@,
                cursor as int,
                limit as int,
                marker as int,
            ),
        decreases limit - cursor,
    {
        let declared = read_be32(buf, cursor);
        let size: usize = if declared == 0 {
            limit - cursor
        } else {
            declared as usize
        };
        if size < BOX_HEADER_LEN || size > limit - cursor {
            return None;
        }
        let tag = read_be32(buf, cursor + 4);
        if tag == marker {
            return Some(copy_range(buf, cursor + BOX_HEADER_LEN, cursor + size));
        }
        if tag == TAG_AVC1 || tag == TAG_HVC1 || tag == TAG_HEV1 {
            if BOX_HEADER_LEN + VIDEO_SAMPLE_ENTRY_FIELDS_LEN < size {
                let inner = parse_range(
                    buf,
                    cursor + BOX_HEADER_LEN + VIDEO_SAMPLE_ENTRY_FIELDS_LEN,
                    cursor + size,
                    marker,
                );
                if inner.is_some() {
                    return inner;
                }
            }
        } else if tag == TAG_STSD || tag == TAG_TRAK || tag == TAG_MDIA || tag == TAG_MINF
            || tag == TAG_STBL {
            if BOX_HEADER_LEN < size {
                let inner = parse_range(buf, cursor + BOX_HEADER_LEN, cursor + size, marker);
                if inner.is_some() {
                    return inner;
                }
            }
        }
        cursor = cursor + size;
    }
    None
}

/// Searches `buf` depth-first for the first box tagged `marker` and returns
/// the bytes after its header, up to its declared end.
pub fn find_box_payload(buf: &[u8], marker: &[u8; 4]) -> (r: Option<Vec<u8>>)
    ensures
        view_bytes(r) == box_payload(buf@, marker@),
{
    let m = read_be32(marker.as_slice(), 0);
    parse_range(buf, 0, buf.len(), m)
}

/// Classification of a header: `hvc1` at bytes 4..8 is H.265, any other
/// header of at least 8 bytes is H.264, and a shorter one is unknown.
pub open spec fn codec_of(header: Seq<u8>) -> VideoCodec {
    if header.len() >= 8 {
        if be32(header, 4) == TAG_HVC1 {
            VideoCodec::H265
        } else {
            VideoCodec::H264
        }
    } else {
        VideoCodec::Unknown
    }
}

/// The codec configuration record carried by `header`: the header itself
/// when it starts with the record version byte 1, else the payload of the
/// family's configuration box.
pub open spec fn codec_record(header: Seq<u8>, codec: VideoCodec) -> Option<Seq<u8>> {
    if header.len() > 0 && header[0] == 1 {
        Some(header)
    } else {
        match codec {
            VideoCodec::H264 => walk(header, 0, header.len() as int, TAG_AVCC as int),
            VideoCodec::H265 => walk(header, 0, header.len() as int, TAG_HVCC as int),
            VideoCodec::Unknown => None,
        }
    }
}

pub fn detect_codec(header: &[u8]) -> (r: VideoCodec)
    ensures
        r == codec_of(header@),
{
    if header.len() >= 8 {
        if read_be32(header, 4) == TAG_HVC1 {
            VideoCodec::H265
        } else {
            VideoCodec::H264
        }
    } else {
        VideoCodec::Unknown
    }
}

pub fn extract_codec_record(header: &[u8], codec: VideoCodec) -> (r: Option<Vec<u8>>)
    ensures
        view_bytes(r) == codec_record(header@, codec),
{
    if header.len() > 0 && header[0] == 1 {
        return Some(copy_range(header, 0, header.len()));
    }
    let marker = match codec {
        VideoCodec::H264 => TAG_AVCC,
        VideoCodec::H265 => TAG_HVCC,
        VideoCodec::Unknown => {
            return None;
        },
    };
    proof {
        assert(header@.subrange(0, header@.len() as int) =~= header@);
    }
    parse_range(header, 0, header.len(), marker)
}

/// The record that initialises a decoder: the extracted one, or, where none
/// is found, the header itself.
pub open spec fn decoder_config(header: Seq<u8>, codec: VideoCodec) -> Seq<u8> {
    match codec_record(header, codec) {
        Some(record) => record,
        None => header,
    }
}

/// Classifies the first header of a video stream and gives the codec
/// configuration record that its decoder is set up with.
pub fn codec_config(header: &[u8]) -> (r: (VideoCodec, Vec<u8>))
    ensures
        r.0 == codec_of(header@),
        r.1@ == decoder_config(header@, r.0),
{
    let codec = detect_codec(header);
    let record = match extract_codec_record(header, codec) {
        Some(record) => record,
        None => copy_range(header, 0, header.len()),
    };
    proof {
        assert(header@.subrange(0, header@.len() as int) =~= header@);
    }
    (codec, record)
}

/// Parameters of the decode pipeline for one codec family.
pub struct CodecPipelineSpec {
    pub caps_mime: &'static str,
    pub stream_format: &'static str,
    pub parser: &'static str,
    pub decoder: &'static str,
}

impl CodecPipelineSpec {
    /// H.265 streams get the HEVC caps and parser; every other family is
    /// decoded as H.264.
    pub fn from(codec: VideoCodec) -> (r: Self)
        ensures
            codec == VideoCodec::H265 ==> r.caps_mime@ == "video/x-h265"@ && r.stream_format@
                == "hvc1"@ && r.parser@ == "h265parse"@,
            codec != VideoCodec::H265 ==> r.caps_mime@ == "video/x-h264"@ && r.stream_format@
                == "avc"@ && r.parser@ == "h264parse"@,
            r.decoder@ == "vtdec_hw"@,
    {
        match codec {
            VideoCodec::H265 => CodecPipelineSpec {
                caps_mime: "video/x-h265",
                stream_format: "hvc1",
                parser: "h265parse",
                decoder: "vtdec_hw",
            },
            _ => CodecPipelineSpec {
                caps_mime: "video/x-h264",
                stream_format: "avc",
                parser: "h264parse",
                decoder: "vtdec_hw",
            },
        }
    }
}

} // verus!
