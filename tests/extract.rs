use nowplaying::metadata::Metadata;
use nowplaying::tags::{build_metadata, extract_metadata, tag_key, tag_text, ExtractError, Tag, TagValue};

fn tag(key: &str, std_key: Option<&str>, value: TagValue) -> Tag {
    Tag { key: key.to_string(), std_key: std_key.map(|k| k.to_string()), value }
}

fn text(v: TagValue) -> Option<String> {
    tag_text(&v)
}

#[test]
fn boolean_true_becomes_true() {
    assert_eq!(text(TagValue::Boolean(true)), Some("true".to_string()));
    assert_eq!(text(TagValue::Boolean(false)), Some("false".to_string()));
}

#[test]
fn flag_becomes_one() {
    assert_eq!(text(TagValue::Flag), Some("1".to_string()));
}

#[test]
fn binary_has_no_text() {
    assert_eq!(text(TagValue::Binary(vec![1, 2, 3])), None);
}

#[test]
fn integers_become_decimal_text() {
    assert_eq!(text(TagValue::UnsignedInt(42)), Some("42".to_string()));
    assert_eq!(text(TagValue::UnsignedInt(0)), Some("0".to_string()));
    assert_eq!(text(TagValue::UnsignedInt(u64::MAX)), Some("18446744073709551615".to_string()));
    assert_eq!(text(TagValue::SignedInt(-7)), Some("-7".to_string()));
    assert_eq!(text(TagValue::SignedInt(i64::MIN)), Some("-9223372036854775808".to_string()));
    assert_eq!(text(TagValue::SignedInt(305)), Some("305".to_string()));
}

#[test]
fn strings_and_floats_are_kept() {
    assert_eq!(text(TagValue::Text("Abbey Road".to_string())), Some("Abbey Road".to_string()));
    assert_eq!(text(TagValue::Float("1.5".to_string())), Some("1.5".to_string()));
}

#[test]
fn standard_key_wins_over_raw_key() {
    let t = tag("TIT2", Some("TrackTitle"), TagValue::Text("A".to_string()));
    assert_eq!(tag_key(&t), "TrackTitle");
    let m = build_metadata(&vec![t]);
    assert_eq!(m.get(&"TrackTitle".to_string()), Some("A".to_string()));
    assert_eq!(m.get(&"TIT2".to_string()), None);
}

#[test]
fn raw_key_used_without_standard_key() {
    let t = tag("MYTAG", None, TagValue::Text("x".to_string()));
    assert_eq!(tag_key(&t), "MYTAG");
}

#[test]
fn later_tag_wins_on_same_key() {
    let tags = vec![
        tag("TIT2", Some("TrackTitle"), TagValue::Text("first".to_string())),
        tag("TITLE", Some("TrackTitle"), TagValue::Text("second".to_string())),
    ];
    let m = build_metadata(&tags);
    assert_eq!(m.get(&"TrackTitle".to_string()), Some("second".to_string()));
    assert_eq!(m.to_pairs().len(), 1);
}

#[test]
fn binary_tag_leaves_no_entry() {
    let tags = vec![
        tag("Title", None, TagValue::Text("A".to_string())),
        tag("APIC", None, TagValue::Binary(vec![0xff, 0xd8])),
    ];
    let m = build_metadata(&tags);
    assert_eq!(m.to_pairs(), vec![("Title".to_string(), "A".to_string())]);
    assert_eq!(m.get(&"APIC".to_string()), None);
}

#[test]
fn no_tags_gives_empty_map() {
    let m = build_metadata(&Vec::new());
    assert!(m.is_empty());
}

#[test]
fn missing_metadata_block_is_an_error() {
    assert!(matches!(extract_metadata(None), Err(ExtractError::NoMetadata)));
}

#[test]
fn current_revision_becomes_map() {
    let tags = vec![
        tag("TPE1", Some("Artist"), TagValue::Text("B".to_string())),
        tag("TRCK", Some("TrackNumber"), TagValue::UnsignedInt(3)),
        tag("COMPILATION", None, TagValue::Flag),
    ];
    let m = extract_metadata(Some(tags)).ok().unwrap();
    assert_eq!(m.get(&"Artist".to_string()), Some("B".to_string()));
    assert_eq!(m.get(&"TrackNumber".to_string()), Some("3".to_string()));
    assert_eq!(m.get(&"COMPILATION".to_string()), Some("1".to_string()));
    assert_eq!(m.to_pairs().len(), 3);
}

#[test]
fn metadata_insert_replaces() {
    let mut m = Metadata::new();
    assert!(m.is_empty());
    m.insert("a".to_string(), "1".to_string());
    m.insert("b".to_string(), "2".to_string());
    m.insert("a".to_string(), "3".to_string());
    assert!(!m.is_empty());
    assert_eq!(m.get(&"a".to_string()), Some("3".to_string()));
    assert_eq!(m.get(&"b".to_string()), Some("2".to_string()));
    assert_eq!(m.get(&"c".to_string()), None);
    assert_eq!(m.to_pairs().len(), 2);
}
