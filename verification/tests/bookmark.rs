use optail::entry::entry_passes;
use optail::resolve_bookmark;
use optail::Bookmark;
use optail::Entry;
use optail::Field;
use optail::Value;

fn entry_with_ts(ts: i64, op: &str) -> Entry {
    Entry {
        fields: vec![
            Field { key: "ts".to_string(), value: Value::Int(ts) },
            Field { key: "op".to_string(), value: Value::Str(op.to_string()) },
        ],
    }
}

#[test]
fn empty_log_resolves_to_minimum() {
    let b = resolve_bookmark(&None);
    assert_eq!(b.0, i64::MIN);
}

#[test]
fn latest_entry_gives_its_sequence_value() {
    let b = resolve_bookmark(&Some(entry_with_ts(3, "d")));
    assert_eq!(b.0, 3);
}

#[test]
fn entry_without_sequence_field_resolves_to_minimum() {
    let e = Entry {
        fields: vec![Field { key: "op".to_string(), value: Value::Str("i".to_string()) }],
    };
    let b = resolve_bookmark(&Some(e));
    assert_eq!(b.0, i64::MIN);
}

#[test]
fn filter_at_resolved_bookmark_excludes_existing_entries() {
    let log = vec![entry_with_ts(1, "i"), entry_with_ts(2, "u"), entry_with_ts(3, "d")];
    let b = resolve_bookmark(&Some(entry_with_ts(3, "d")));
    for e in &log {
        assert!(!entry_passes(e, &b));
    }
    assert!(entry_passes(&entry_with_ts(4, "i"), &b));
}

#[test]
fn minimum_bookmark_admits_every_later_entry() {
    let b = Bookmark(i64::MIN);
    assert!(entry_passes(&entry_with_ts(i64::MIN + 1, "i"), &b));
    assert!(entry_passes(&entry_with_ts(0, "u"), &b));
    assert!(entry_passes(&entry_with_ts(i64::MAX, "d"), &b));
}

#[test]
fn lookup_finds_the_first_binding_of_a_key() {
    let e = entry_with_ts(7, "u");
    match e.get("op") {
        Some(Value::Str(s)) => assert_eq!(s, "u"),
        _ => panic!("op must be bound to its string"),
    }
    assert!(e.get("missing").is_none());
    assert!(optail::entry::str_eq("ts", "ts"));
    assert!(!optail::entry::str_eq("ts", "t"));
}

#[test]
fn lookup_takes_the_earlier_of_equal_keys() {
    let e = Entry {
        fields: vec![
            Field { key: "ts".to_string(), value: Value::Int(5) },
            Field { key: "ts".to_string(), value: Value::Int(9) },
        ],
    };
    let b = resolve_bookmark(&Some(e));
    assert_eq!(b.0, 5);
}

#[test]
fn entry_without_integer_sequence_never_passes() {
    let e = Entry {
        fields: vec![Field { key: "op".to_string(), value: Value::Str("n".to_string()) }],
    };
    assert!(!entry_passes(&e, &Bookmark(i64::MIN)));
}
