use optail::render_entry;
use optail::serialize_entry;
use optail::standard_highlight;
use optail::strip_marks;
use optail::Entry;
use optail::Field;
use optail::Value;

fn sample_entry() -> Entry {
    Entry {
        fields: vec![
            Field { key: "ts".to_string(), value: Value::Int(4) },
            Field { key: "op".to_string(), value: Value::Str("i".to_string()) },
            Field {
                key: "doc".to_string(),
                value: Value::Doc(Entry {
                    fields: vec![Field { key: "x".to_string(), value: Value::Int(1) }],
                }),
            },
        ],
    }
}

#[test]
fn leaves_line_bare_when_colors_are_off() {
    colored::control::set_override(false);
    let h = standard_highlight();
    let line = render_entry(&sample_entry(), &h);
    assert_eq!(line, "{ ts: 4, op: \"i\", doc: { x: 1 } }");
}

#[test]
fn stripping_bare_line_changes_nothing() {
    colored::control::set_override(false);
    let h = standard_highlight();
    let e = sample_entry();
    let line = render_entry(&e, &h);
    assert_eq!(strip_marks(&line), serialize_entry(&e));
}
