use optail::render_entry;
use optail::serialize_entry;
use optail::serialize_value;
use optail::standard_highlight;
use optail::strip_marks;
use optail::Entry;
use optail::Field;
use optail::Value;

fn sample_entry() -> Entry {
    Entry {
        fields: vec![
            Field { key: "ts".to_string(), value: Value::Int(4) },
            Field { key: "op".to_string(), value: Value::Str("i".to_string()) },
            Field {
                key: "doc".to_string(),
                value: Value::Doc(Entry {
                    fields: vec![Field { key: "x".to_string(), value: Value::Int(1) }],
                }),
            },
        ],
    }
}

#[test]
fn serializes_nested_entry() {
    assert_eq!(serialize_entry(&sample_entry()), "{ ts: 4, op: \"i\", doc: { x: 1 } }");
}

#[test]
fn serializes_empty_entry() {
    assert_eq!(serialize_entry(&Entry { fields: vec![] }), "{ }");
}

#[test]
fn serializes_integers_in_decimal() {
    assert_eq!(serialize_value(&Value::Int(0)), "0");
    assert_eq!(serialize_value(&Value::Int(907)), "907");
    assert_eq!(serialize_value(&Value::Int(-35)), "-35");
    assert_eq!(serialize_value(&Value::Int(i64::MAX)), "9223372036854775807");
    assert_eq!(serialize_value(&Value::Int(i64::MIN)), "-9223372036854775808");
}

#[test]
fn highlights_structural_punctuation_when_colors_are_on() {
    colored::control::set_override(true);
    let h = standard_highlight();
    let line = render_entry(&sample_entry(), &h);
    assert_eq!(
        line,
        "\u{1b}[34m{\u{1b}[0m ts\u{1b}[34m:\u{1b}[0m 4, op\u{1b}[34m:\u{1b}[0m \"i\", \
         doc\u{1b}[34m:\u{1b}[0m \u{1b}[34m{\u{1b}[0m x\u{1b}[34m:\u{1b}[0m 1 \
         \u{1b}[34m}\u{1b}[0m \u{1b}[34m}\u{1b}[0m"
    );
}

#[test]
fn highlighting_punctuation_inside_string_values_too() {
    colored::control::set_override(true);
    let h = standard_highlight();
    let e = Entry {
        fields: vec![Field { key: "msg".to_string(), value: Value::Str("a:b".to_string()) }],
    };
    let line = render_entry(&e, &h);
    assert_eq!(
        line,
        "\u{1b}[34m{\u{1b}[0m msg\u{1b}[34m:\u{1b}[0m \"a\u{1b}[34m:\u{1b}[0mb\" \
         \u{1b}[34m}\u{1b}[0m"
    );
}

#[test]
fn rendering_twice_is_byte_identical() {
    colored::control::set_override(true);
    let h = standard_highlight();
    let first = render_entry(&sample_entry(), &h);
    let second = render_entry(&sample_entry(), &h);
    assert_eq!(first, second);
}

#[test]
fn stripping_marks_recovers_serialized_form() {
    colored::control::set_override(true);
    let h = standard_highlight();
    let e = sample_entry();
    let line = render_entry(&e, &h);
    assert_eq!(strip_marks(&line), serialize_entry(&e));
}

#[test]
fn colorize_substitutes_every_structural_character() {
    colored::control::set_override(true);
    let h = standard_highlight();
    assert_eq!(
        optail::colorize("{x}:", &h),
        "\u{1b}[34m{\u{1b}[0mx\u{1b}[34m}\u{1b}[0m\u{1b}[34m:\u{1b}[0m"
    );
}

#[test]
fn error_label_is_styled_red_when_colors_are_on() {
    colored::control::set_override(true);
    assert_eq!(optail::error_label(), "\u{1b}[31moptail error\u{1b}[0m");
}
