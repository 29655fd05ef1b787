use ankiconnect_mcp::json::{lookup, no_members, put, put_opt, JsonNumber, JsonValue};

fn text(s: &str) -> JsonValue {
    JsonValue::String(s.to_string())
}

fn object(members: Vec<(&str, JsonValue)>) -> JsonValue {
    JsonValue::Object(members.into_iter().map(|(k, v)| (k.to_string(), v)).collect())
}

#[test]
fn lookup_finds_a_member_by_its_key() {
    let members = vec![
        ("a".to_string(), JsonValue::Bool(true)),
        ("b".to_string(), text("x")),
    ];
    assert_eq!(lookup(&members, "a"), Some(&JsonValue::Bool(true)));
    assert_eq!(lookup(&members, "b"), Some(&text("x")));
    assert_eq!(lookup(&members, "c"), None);
}

#[test]
fn lookup_is_case_sensitive() {
    let members = vec![("Name".to_string(), text("x"))];
    assert_eq!(lookup(&members, "name"), None);
    assert_eq!(lookup(&members, "Name"), Some(&text("x")));
}

#[test]
fn lookup_takes_the_last_of_repeated_keys() {
    let members = vec![
        ("k".to_string(), JsonValue::integer(1)),
        ("other".to_string(), JsonValue::Null),
        ("k".to_string(), JsonValue::integer(2)),
    ];
    assert_eq!(lookup(&members, "k"), Some(&JsonValue::integer(2)));
}

#[test]
fn lookup_in_no_members_finds_nothing() {
    let members = no_members();
    assert!(members.is_empty());
    assert_eq!(lookup(&members, "k"), None);
}

#[test]
fn get_reads_objects_only() {
    let value = object(vec![("k", JsonValue::Null)]);
    assert_eq!(value.get("k"), Some(&JsonValue::Null));
    assert_eq!(value.get("missing"), None);
    assert_eq!(text("k").get("k"), None);
    assert_eq!(JsonValue::Array(vec![text("k")]).get("k"), None);
    assert_eq!(JsonValue::Null.get("k"), None);
}

#[test]
fn as_str_reads_strings_only() {
    assert_eq!(text("hello").as_str(), Some("hello"));
    assert_eq!(text("").as_str(), Some(""));
    assert_eq!(JsonValue::integer(1).as_str(), None);
    assert_eq!(JsonValue::Null.as_str(), None);
}

#[test]
fn as_integer_reads_integers_only() {
    assert_eq!(JsonValue::integer(-7).as_integer(), Some(-7));
    assert_eq!(JsonValue::integer(i128::MAX).as_integer(), Some(i128::MAX));
    assert_eq!(JsonValue::Number(JsonNumber::Float(0x3ff8_0000_0000_0000)).as_integer(), None);
    assert_eq!(text("1").as_integer(), None);
}

#[test]
fn constructors_build_the_value_they_name() {
    assert_eq!(JsonValue::text("abc"), JsonValue::String("abc".to_string()));
    assert_eq!(JsonValue::integer(5), JsonValue::Number(JsonNumber::Integer(5)));
    let members = vec![("k".to_string(), JsonValue::Null)];
    assert_eq!(JsonValue::object(members.clone()), JsonValue::Object(members));
    let items = vec![JsonValue::Bool(false)];
    assert_eq!(JsonValue::array(items.clone()), JsonValue::Array(items));
}

#[test]
fn put_adds_at_the_end() {
    let mut members = no_members();
    put(&mut members, "first", JsonValue::integer(1));
    put(&mut members, "second", JsonValue::integer(2));
    assert_eq!(
        members,
        vec![
            ("first".to_string(), JsonValue::integer(1)),
            ("second".to_string(), JsonValue::integer(2)),
        ]
    );
}

#[test]
fn put_opt_skips_what_is_absent() {
    let mut members = no_members();
    put_opt(&mut members, "absent", None);
    put_opt(&mut members, "present", Some(JsonValue::Null));
    assert_eq!(members, vec![("present".to_string(), JsonValue::Null)]);
}

#[test]
fn clone_copies_a_nested_value() {
    let value = object(vec![
        ("list", JsonValue::Array(vec![JsonValue::integer(1), text("two"), JsonValue::Null])),
        ("inner", object(vec![("flag", JsonValue::Bool(true))])),
        ("number", JsonValue::Number(JsonNumber::Float(42))),
    ]);
    let copy = value.clone();
    assert_eq!(copy, value);
}
