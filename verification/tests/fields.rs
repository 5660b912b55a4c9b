use serde_json::Value;
use webhook_router::fields::{descend, read_integer, read_text, read_text_or_empty};

fn parse(text: &str) -> Value {
    serde_json::from_str(text).unwrap()
}

#[test]
fn descend_follows_object_members_only() {
    let doc = parse(r#"{"a":{"b":[1,2]},"c":"text","d":null}"#);
    let a = descend(Some(&doc), "a");
    assert_eq!(a, Some(&parse(r#"{"b":[1,2]}"#)));
    assert_eq!(descend(a, "b"), Some(&parse("[1,2]")));
    assert_eq!(descend(descend(a, "b"), "0"), None);
    assert_eq!(descend(Some(&doc), "c"), Some(&Value::String("text".to_string())));
    assert_eq!(descend(descend(Some(&doc), "c"), "x"), None);
    assert_eq!(descend(Some(&doc), "d"), Some(&Value::Null));
    assert_eq!(descend(descend(Some(&doc), "d"), "x"), None);
    assert_eq!(descend(Some(&doc), "missing"), None);
    assert_eq!(descend(Some(&doc), ""), None);
    assert_eq!(descend(Some(&doc), "A"), None);
    assert_eq!(descend(None, "a"), None);
}

#[test]
fn read_text_takes_strings_only() {
    assert_eq!(read_text(Some(&parse(r#""hello""#))), Some("hello".to_string()));
    assert_eq!(read_text(Some(&parse(r#""""#))), Some(String::new()));
    assert_eq!(read_text(Some(&parse("12"))), None);
    assert_eq!(read_text(Some(&parse("null"))), None);
    assert_eq!(read_text(Some(&parse("true"))), None);
    assert_eq!(read_text(Some(&parse(r#"["hello"]"#))), None);
    assert_eq!(read_text(Some(&parse(r#"{"hello":"x"}"#))), None);
    assert_eq!(read_text(None), None);
}

#[test]
fn read_integer_takes_integers_in_range_only() {
    assert_eq!(read_integer(Some(&parse("12"))), Some(12));
    assert_eq!(read_integer(Some(&parse("-12"))), Some(-12));
    assert_eq!(read_integer(Some(&parse("-0"))), None);
    assert_eq!(read_integer(Some(&parse("0"))), Some(0));
    assert_eq!(read_integer(Some(&parse("9223372036854775807"))), Some(i64::MAX));
    assert_eq!(read_integer(Some(&parse("9223372036854775808"))), None);
    assert_eq!(read_integer(Some(&parse("12.0"))), None);
    assert_eq!(read_integer(Some(&parse("12e0"))), None);
    assert_eq!(read_integer(Some(&parse(r#""12""#))), None);
    assert_eq!(read_integer(Some(&parse("null"))), None);
    assert_eq!(read_integer(None), None);
}

#[test]
fn read_text_or_empty_defaults_to_empty() {
    assert_eq!(read_text_or_empty(Some(&parse(r#""abc123""#))), "abc123");
    assert_eq!(read_text_or_empty(Some(&parse("5"))), "");
    assert_eq!(read_text_or_empty(Some(&parse("null"))), "");
    assert_eq!(read_text_or_empty(None), "");
}
