//! A decoded message body: the tree of values that a property-list or JSON
//! document denotes, and typed reads of its fields.
use vstd::prelude::*;
use vstd::utf8::encode_utf8;

verus! {

/// One value of a message body.
pub enum Node {
    Null,
    Bool(bool),
    Int(i128),
    /// A number with a fractional part; no field of these messages holds one.
    Fraction,
    Str(String),
    Data(Vec<u8>),
    Array(Vec<Node>),
    Dict(Vec<(String, Node)>),
}

/// The value of the first entry named `key` among `entries[i..]`.
pub open spec fn lookup_from(entries: Seq<(String, Node)>, key: Seq<char>, i: int) -> Option<Node>
    decreases entries.len() - i,
{
    if i < 0 || i >= entries.len() {
        None
    } else if entries[i].0@ == key {
        Some(entries[i].1)
    } else {
        lookup_from(entries, key, i + 1)
    }
}

/// The value of the field `key` of a dictionary; nothing for other values.
pub open spec fn field(n: Node, key: Seq<char>) -> Option<Node> {
    match n {
        Node::Dict(entries) => lookup_from(entries@, key, 0),
        _ => None,
    }
}

/// An integer within `lo..=hi`.
pub open spec fn int_in(n: Option<Node>, lo: int, hi: int) -> Option<i128> {
    match n {
        Some(Node::Int(v)) => if lo <= v <= hi {
            Some(v)
        } else {
            None
        },
        _ => None,
    }
}

/// An optional integer within `lo..=hi`: absent and null both read as
/// `None`; the outer `None` marks a value of another kind.
pub open spec fn opt_int_in(n: Option<Node>, lo: int, hi: int) -> Option<Option<i128>> {
    match n {
        None => Some(None),
        Some(Node::Null) => Some(None),
        Some(Node::Int(v)) => if lo <= v <= hi {
            Some(Some(v))
        } else {
            None
        },
        _ => None,
    }
}

pub open spec fn str_of(n: Option<Node>) -> Option<String> {
    match n {
        Some(Node::Str(s)) => Some(s),
        _ => None,
    }
}

/// An optional string: absent and null both read as `None`.
pub open spec fn opt_str_of(n: Option<Node>) -> Option<Option<String>> {
    match n {
        None => Some(None),
        Some(Node::Null) => Some(None),
        Some(Node::Str(s)) => Some(Some(s)),
        _ => None,
    }
}

pub open spec fn is_byte_node(n: Node) -> bool {
    n matches Node::Int(v) && 0 <= v <= 255
}

pub open spec fn byte_value(n: Node) -> u8 {
    match n {
        Node::Int(v) => v as u8,
        _ => 0,
    }
}

/// A byte string: binary data, the UTF-8 encoding of a string, or an array
/// of byte values.
pub open spec fn bytes_of(n: Option<Node>) -> Option<Seq<u8>> {
    match n {
        Some(Node::Data(v)) => Some(v@),
        Some(Node::Str(s)) => Some(encode_utf8(s@)),
        Some(Node::Array(items)) => if forall|i: int| 0 <= i < items@.len() ==> is_byte_node(#[trigger] items@[i]) {
            Some(Seq::new(items@.len(), |i: int| byte_value(items@[i])))
        } else {
            None
        },
        _ => None,
    }
}

/// A dictionary whose entries are `fields`, in order, each value an integer.
pub open spec fn int_dict(n: Node, fields: Seq<(Seq<char>, int)>) -> bool {
    &&& n is Dict
    &&& n->Dict_0@.len() == fields.len()
    &&& forall|i: int|
        0 <= i < fields.len() ==> (#[trigger] n->Dict_0@[i]).0@ == fields[i].0 && n->Dict_0@[i].1
            == Node::Int(fields[i].1 as i128)
}

pub fn get_field<'a>(n: &'a Node, key: &str) -> (r: Option<&'a Node>)
    ensures
        match r {
            Some(v) => field(*n, key@) == Some(*v),
            None => field(*n, key@) is None,
        },
{
    match n {
        Node::Dict(entries) => {
            let k = String::from_str(key);
            let mut i: usize = 0;
            while i < entries.len()
                invariant
                    0 <= i <= entries@.len(),
                    k@ == key@,
                    field(*n, key@) == lookup_from(entries@, key@, 0),
                    lookup_from(entries@, key@, 0) == lookup_from(entries@, key@, i as int),
                decreases entries.len() - i,
            {
                let entry = &entries[i];
                if entry.0 == k {
                    return Some(&entry.1);
                }
                i = i + 1;
            }
            None
        },
        _ => None,
    }
}

pub fn int_field(n: &Node, key: &str, lo: i128, hi: i128) -> (r: Option<i128>)
    ensures
        r == int_in(field(*n, key@), lo as int, hi as int),
{
    match get_field(n, key) {
        Some(Node::Int(v)) => if lo <= *v && *v <= hi {
            Some(*v)
        } else {
            None
        },
        _ => None,
    }
}

pub fn opt_int_field(n: &Node, key: &str, lo: i128, hi: i128) -> (r: Option<Option<i128>>)
    ensures
        r == opt_int_in(field(*n, key@), lo as int, hi as int),
{
    match get_field(n, key) {
        None => Some(None),
        Some(Node::Null) => Some(None),
        Some(Node::Int(v)) => if lo <= *v && *v <= hi {
            Some(Some(*v))
        } else {
            None
        },
        _ => None,
    }
}

pub fn str_field(n: &Node, key: &str) -> (r: Option<String>)
    ensures
        r == str_of(field(*n, key@)),
{
    match get_field(n, key) {
        Some(Node::Str(s)) => Some(s.clone()),
        _ => None,
    }
}

pub fn opt_str_field(n: &Node, key: &str) -> (r: Option<Option<String>>)
    ensures
        r == opt_str_of(field(*n, key@)),
{
    match get_field(n, key) {
        None => Some(None),
        Some(Node::Null) => Some(None),
        Some(Node::Str(s)) => Some(Some(s.clone())),
        _ => None,
    }
}

fn copy_bytes(b: &[u8]) -> (r: Vec<u8>)
    ensures
        r@ == b@,
{
    let mut out: Vec<u8> = Vec::new();
    let mut i: usize = 0;
    while i < b.len()
        invariant
            0 <= i <= b@.len(),
            out@ == b@.subrange(0, i as int),
        decreases b.len() - i,
    {
        out.push(b[i]);
        i = i + 1;
    }
    proof {
        assert(b@.subrange(0, b@.len() as int) =~= b@);
    }
    out
}

fn byte_items(items: &Vec<Node>) -> (r: Option<Vec<u8>>)
    ensures
        match r {
            Some(v) => (forall|i: int| 0 <= i < items@.len() ==> is_byte_node(#[trigger] items@[i]))
                && v@ == Seq::new(items@.len(), |i: int| byte_value(items@[i])),
            None => !(forall|i: int| 0 <= i < items@.len() ==> is_byte_node(#[trigger] items@[i])),
        },
{
    let mut out: Vec<u8> = Vec::new();
    let mut i: usize = 0;
    while i < items.len()
        invariant
            0 <= i <= items@.len(),
            forall|j: int| 0 <= j < i ==> is_byte_node(#[trigger] items@[j]),
            out@ == Seq::new(i as nat, |j: int| byte_value(items@[j])),
        decreases items.len() - i,
    {
        match &items[i] {
            Node::Int(v) => {
                if 0 <= *v && *v <= 255 {
                    out.push(*v as u8);
                } else {
                    return None;
                }
            },
            _ => {
                return None;
            },
        }
        proof {
            assert(out@ =~= Seq::new((i + 1) as nat, |j: int| byte_value(items@[j])));
        }
        i = i + 1;
    }
    Some(out)
}

pub fn bytes_field(n: &Node, key: &str) -> (r: Option<Vec<u8>>)
    ensures
        match r {
            Some(v) => bytes_of(field(*n, key@)) == Some(v@),
            None => bytes_of(field(*n, key@)) is None,
        },
{
    match get_field(n, key) {
        Some(Node::Data(v)) => Some(copy_bytes(v.as_slice())),
        Some(Node::Str(s)) => Some(copy_bytes(s.as_str().as_bytes())),
        Some(Node::Array(items)) => byte_items(items),
        _ => None,
    }
}

} // verus!
