//! Tags read from a media file and the policy that turns them into text.
use vstd::prelude::*;
use crate::metadata::Metadata;

verus! {

/// The value a tag carries.
pub enum TagValue {
    /// Raw bytes, which have no text form.
    Binary(Vec<u8>),
    Boolean(bool),
    /// A tag whose presence alone is the information.
    Flag,
    /// A floating-point value, held as its shortest round-trip text
    /// (`1.5`, `2.0`).
    Float(String),
    SignedInt(i64),
    Text(String),
    UnsignedInt(u64),
}

/// One tag: its raw key, the canonical name of its standard key when the
/// key is a recognised one, and its value.
pub struct Tag {
    pub key: String,
    pub std_key: Option<String>,
    pub value: TagValue,
}

/// Why a file yielded no metadata.
#[derive(Debug, Clone, Copy, PartialEq, Eq, Structural)]
pub enum ExtractError {
    /// The path does not exist.
    NotFound,
    /// The file could not be opened for reading.
    OpenError,
    /// The container format could not be identified or parsed.
    ProbeError,
    /// The container exposes no metadata block.
    NoMetadata,
}

/// The character of a decimal digit.
pub open spec fn digit_char(d: nat) -> char {
    if d == 0 {
        '0'
    } else if d == 1 {
        '1'
    } else if d == 2 {
        '2'
    } else if d == 3 {
        '3'
    } else if d == 4 {
        '4'
    } else if d == 5 {
        '5'
    } else if d == 6 {
        '6'
    } else if d == 7 {
        '7'
    } else if d == 8 {
        '8'
    } else {
        '9'
    }
}

/// The decimal digits of `n`, most significant first, without leading zeros.
pub open spec fn decimal_text(n: nat) -> Seq<char>
    decreases n,
{
    if n < 10 {
        seq![digit_char(n)]
    } else {
        decimal_text(n / 10).push(digit_char(n % 10))
    }
}

/// The decimal text of a signed integer: a minus sign before the digits of a
/// negative one.
pub open spec fn signed_text(v: int) -> Seq<char> {
    if v < 0 {
        seq!['-'] + decimal_text((-v) as nat)
    } else {
        decimal_text(v as nat)
    }
}

/// `true` or `false`.
pub open spec fn bool_text(b: bool) -> Seq<char> {
    if b {
        seq!['t', 'r', 'u', 'e']
    } else {
        seq!['f', 'a', 'l', 's', 'e']
    }
}

/// The text that a tag value contributes, or none for binary data.
pub open spec fn value_text(v: TagValue) -> Option<Seq<char>> {
    match v {
        TagValue::Binary(_) => None,
        TagValue::Boolean(b) => Some(bool_text(b)),
        TagValue::Flag => Some(seq!['1']),
        TagValue::Float(t) => Some(t@),
        TagValue::SignedInt(i) => Some(signed_text(i as int)),
        TagValue::Text(s) => Some(s@),
        TagValue::UnsignedInt(u) => Some(decimal_text(u as nat)),
    }
}

/// The map key of a tag: the standard key's name when there is one, else the
/// raw key.
pub open spec fn key_of(t: Tag) -> Seq<char> {
    match t.std_key {
        Some(k) => k@,
        None => t.key@,
    }
}

/// The map of a list of tags: each tag with a text form sets its key, and a
/// later tag wins over an earlier one with the same key.
pub open spec fn tags_map(tags: Seq<Tag>) -> Map<Seq<char>, Seq<char>>
    decreases tags.len(),
{
    if tags.len() == 0 {
        Map::empty()
    } else {
        let m = tags_map(tags.drop_last());
        match value_text(tags.last().value) {
            Some(v) => m.insert(key_of(tags.last()), v),
            None => m,
        }
    }
}

/// Relies on `u64`'s `Display`, which writes the decimal digits.
#[verifier::external_body]
fn unsigned_to_text(v: u64) -> (r: String)
    ensures
        r@ == decimal_text(v as nat),
{
    v.to_string()
}

/// Relies on `i64`'s `Display`, which writes a minus sign for a negative value
/// and then the decimal digits.
#[verifier::external_body]
fn signed_to_text(v: i64) -> (r: String)
    ensures
        r@ == signed_text(v as int),
{
    v.to_string()
}

/// The text form of a tag value: `true`/`false`, `1` for a flag, decimal
/// digits for integers, the text itself for strings and floats, and none for
/// binary data.
pub fn tag_text(v: &TagValue) -> (r: Option<String>)
    ensures
        r is Some == value_text(*v) is Some,
        r is Some ==> value_text(*v) == Some(r->0@),
{
    match v {
        TagValue::Binary(_) => None,
        TagValue::Boolean(b) => {
            if *b {
                proof {
                    reveal_strlit("true");
                }
                let t = "true".to_owned();
                assert(t@ =~= bool_text(*b));
                Some(t)
            } else {
                proof {
                    reveal_strlit("false");
                }
                let t = "false".to_owned();
                assert(t@ =~= bool_text(*b));
                Some(t)
            }
        },
        TagValue::Flag => {
            proof {
                reveal_strlit("1");
            }
            let t = "1".to_owned();
            assert(t@ =~= seq!['1']);
            Some(t)
        },
        TagValue::Float(t) => Some(t.clone()),
        TagValue::SignedInt(i) => Some(signed_to_text(*i)),
        TagValue::Text(s) => Some(s.clone()),
        TagValue::UnsignedInt(u) => Some(unsigned_to_text(*u)),
    }
}

/// The map key of a tag: the standard key's name wins over the raw key.
pub fn tag_key(t: &Tag) -> (r: String)
    ensures
        r@ == key_of(*t),
{
    match &t.std_key {
        Some(k) => k.clone(),
        None => t.key.clone(),
    }
}

/// The metadata map of a list of tags.
pub fn build_metadata(tags: &Vec<Tag>) -> (r: Metadata)
    ensures
        r.wf(),
        r@ == tags_map(tags@),
{
    let mut m = Metadata::new();
    let n = tags.len();
    let mut i: usize = 0;
    while i < n
        invariant
            n == tags.len(),
            0 <= i <= n,
            m.wf(),
            m@ == tags_map(tags@.subrange(0, i as int)),
        decreases n - i,
    {
        let tag = &tags[i];
        assert(tags@.subrange(0, i + 1).drop_last() =~= tags@.subrange(0, i as int));
        match tag_text(&tag.value) {
            Some(v) => {
                let k = tag_key(tag);
                m.insert(k, v);
            },
            None => {},
        }
        i = i + 1;
    }
    assert(tags@.subrange(0, n as int) =~= tags@);
    m
}

/// The metadata of a probed file, given the tags of its current metadata
/// revision, or none when the container exposes no metadata block.
pub fn extract_metadata(current: Option<Vec<Tag>>) -> (r: Result<Metadata, ExtractError>)
    ensures
        current is None ==> r == Err::<Metadata, ExtractError>(ExtractError::NoMetadata),
        current is Some ==> r is Ok && r->Ok_0.wf() && r->Ok_0@ == tags_map(current->0@),
{
    match current {
        Some(tags) => Ok(build_metadata(&tags)),
        None => Err(ExtractError::NoMetadata),
    }
}

} // verus!
