use sunk::error::Error;
use sunk::field::{number, optional_string, optional_u64, required_string, required_u64};
use sunk::json::{member, Member};

fn parse(text: &str) -> serde_json::Value {
    serde_json::from_str(text).unwrap()
}

fn names_field<T: std::fmt::Debug>(r: Result<T, Error>, field: &str) {
    match r {
        Err(Error::ParseError(name)) => assert_eq!(name, field),
        other => panic!("expected a parse error for {}, got {:?}", field, other),
    }
}

#[test]
fn a_number_reads_as_itself() {
    assert_eq!(number(Member::Number(0)), Some(0));
    assert_eq!(number(Member::Number(240)), Some(240));
    assert_eq!(number(Member::Number(u64::MAX)), Some(u64::MAX));
}

#[test]
fn a_quoted_number_reads_as_the_number() {
    assert_eq!(number(Member::Text("240")), Some(240));
    assert_eq!(number(Member::Text("1")), number(Member::Number(1)));
    assert_eq!(number(Member::Text("18446744073709551615")), number(Member::Number(u64::MAX)));
}

#[test]
fn what_writes_no_number_reads_as_none() {
    assert_eq!(number(Member::Text("")), None);
    assert_eq!(number(Member::Text("abc")), None);
    assert_eq!(number(Member::Text("-3")), None);
    assert_eq!(number(Member::Other), None);
    assert_eq!(number(Member::Absent), None);
}

#[test]
fn required_number_is_read_from_both_forms() {
    assert_eq!(required_u64(Member::Number(32345658), "size").unwrap(), 32345658);
    assert_eq!(required_u64(Member::Text("1633"), "id").unwrap(), 1633);
}

#[test]
fn required_number_fails_with_its_field() {
    names_field(required_u64(Member::Absent, "id"), "id");
    names_field(required_u64(Member::Other, "size"), "size");
    names_field(required_u64(Member::Text("12x"), "duration"), "duration");
    names_field(required_u64(Member::Text("18446744073709551616"), "id"), "id");
}

#[test]
fn optional_number_absent_is_none() {
    assert_eq!(optional_u64(Member::Absent, "year").unwrap(), None);
}

#[test]
fn optional_number_present_is_some() {
    assert_eq!(optional_u64(Member::Number(2017), "year").unwrap(), Some(2017));
    assert_eq!(optional_u64(Member::Text("2017"), "year").unwrap(), Some(2017));
    assert_eq!(optional_u64(Member::Number(0), "year").unwrap(), Some(0));
}

#[test]
fn optional_number_present_but_unreadable_fails_with_its_field() {
    names_field(optional_u64(Member::Other, "year"), "year");
    names_field(optional_u64(Member::Text("next year"), "year"), "year");
    names_field(optional_u64(Member::Text(""), "track"), "track");
}

#[test]
fn required_text_is_copied() {
    assert_eq!(required_string(Member::Text("P"), "path").unwrap(), "P".to_string());
    assert_eq!(required_string(Member::Text(""), "path").unwrap(), String::new());
}

#[test]
fn required_text_fails_with_its_field() {
    names_field(required_string(Member::Absent, "path"), "path");
    names_field(required_string(Member::Number(3), "path"), "path");
    names_field(required_string(Member::Other, "path"), "path");
}

#[test]
fn optional_text_absent_is_none_and_empty_is_some() {
    assert_eq!(optional_string(Member::Absent, "title").unwrap(), None);
    assert_eq!(optional_string(Member::Text(""), "title").unwrap(), Some(String::new()));
    assert_eq!(optional_string(Member::Text("T"), "title").unwrap(), Some("T".to_string()));
}

#[test]
fn optional_text_present_but_unreadable_fails_with_its_field() {
    names_field(optional_string(Member::Number(5), "title"), "title");
    names_field(optional_string(Member::Other, "genre"), "genre");
}

#[test]
fn lookup_tells_the_kinds_of_member_apart() {
    let j = parse(
        r#"{"n": 7, "big": 18446744073709551615, "neg": -1, "frac": 1.5, "s": "seven",
            "q": "7", "nil": null, "yes": true, "list": [1], "obj": {"n": 1}}"#,
    );
    assert!(matches!(member(&j, "n"), Member::Number(7)));
    assert!(matches!(member(&j, "big"), Member::Number(u64::MAX)));
    assert!(matches!(member(&j, "neg"), Member::Other));
    assert!(matches!(member(&j, "frac"), Member::Other));
    assert!(matches!(member(&j, "s"), Member::Text("seven")));
    assert!(matches!(member(&j, "q"), Member::Text("7")));
    assert!(matches!(member(&j, "nil"), Member::Other));
    assert!(matches!(member(&j, "yes"), Member::Other));
    assert!(matches!(member(&j, "list"), Member::Other));
    assert!(matches!(member(&j, "obj"), Member::Other));
    assert!(matches!(member(&j, "missing"), Member::Absent));
    assert!(matches!(member(&j, "N"), Member::Absent));
}

#[test]
fn lookup_in_what_is_no_object_finds_nothing() {
    assert!(matches!(member(&parse("[1, 2]"), "0"), Member::Absent));
    assert!(matches!(member(&parse("\"id\""), "id"), Member::Absent));
    assert!(matches!(member(&parse("null"), "id"), Member::Absent));
    assert!(matches!(member(&parse("12"), "id"), Member::Absent));
}

#[test]
fn lookup_does_not_descend() {
    let j = parse(r#"{"outer": {"id": 3}}"#);
    assert!(matches!(member(&j, "id"), Member::Absent));
    assert!(matches!(member(&j, "outer"), Member::Other));
}
