use twilio_stream::json::{find_member, parse, quote, Json, Member};

fn member(name: &str, value: Json) -> Member {
    Member { name: name.to_string(), value }
}

#[test]
fn parse_reads_scalars() {
    assert_eq!(parse("null"), Some(Json::Null));
    assert_eq!(parse("true"), Some(Json::Bool(true)));
    assert_eq!(parse("false"), Some(Json::Bool(false)));
    assert_eq!(parse("\"hi\""), Some(Json::Text("hi".to_string())));
    assert_eq!(parse("8000"), Some(Json::Number(Some(8000))));
}

#[test]
fn parse_keeps_only_unsigned_integers() {
    assert_eq!(parse("0"), Some(Json::Number(Some(0))));
    assert_eq!(parse("18446744073709551615"), Some(Json::Number(Some(u64::MAX))));
    assert_eq!(parse("-1"), Some(Json::Number(None)));
    assert_eq!(parse("1.5"), Some(Json::Number(None)));
    assert_eq!(parse("8000.0"), Some(Json::Number(None)));
    assert_eq!(parse("18446744073709551616"), Some(Json::Number(None)));
}

#[test]
fn parse_reads_arrays_in_order() {
    assert_eq!(
        parse("[1, \"two\", [null]]"),
        Some(Json::Array(vec![
            Json::Number(Some(1)),
            Json::Text("two".to_string()),
            Json::Array(vec![Json::Null]),
        ]))
    );
    assert_eq!(parse("[]"), Some(Json::Array(vec![])));
}

#[test]
fn parse_reads_objects() {
    let doc = parse("{\"b\": 2, \"a\": {\"c\": \"d\"}}").unwrap();
    assert_eq!(doc.member("b"), Some(&Json::Number(Some(2))));
    assert_eq!(
        doc.member("a"),
        Some(&Json::Object(vec![member("c", Json::Text("d".to_string()))]))
    );
    assert_eq!(doc.member("c"), None);
    assert_eq!(doc.as_object().map(|m| m.len()), Some(2));
}

#[test]
fn parse_unescapes_strings() {
    assert_eq!(parse("\"a\\n\\\"b\\u00e9\""), Some(Json::Text("a\n\"b\u{e9}".to_string())));
}

#[test]
fn parse_rejects_what_is_not_json() {
    assert_eq!(parse(""), None);
    assert_eq!(parse("{\"event\": \"sta"), None);
    assert_eq!(parse("{\"a\": 1,}"), None);
    assert_eq!(parse("{} trailing"), None);
    assert_eq!(parse("hello"), None);
}

#[test]
fn repeated_member_name_keeps_the_last_value() {
    let doc = parse("{\"a\": 1, \"a\": 2}").unwrap();
    assert_eq!(doc.member("a"), Some(&Json::Number(Some(2))));
}

#[test]
fn find_member_takes_the_first_of_a_name() {
    let members = vec![
        member("a", Json::Number(Some(1))),
        member("b", Json::Null),
        member("a", Json::Number(Some(2))),
    ];
    assert_eq!(find_member(&members, "a"), Some(&Json::Number(Some(1))));
    assert_eq!(find_member(&members, "b"), Some(&Json::Null));
    assert_eq!(find_member(&members, "c"), None);
    assert_eq!(find_member(&vec![], "a"), None);
}

#[test]
fn member_of_what_is_no_object_is_nothing() {
    assert_eq!(Json::Null.member("a"), None);
    assert_eq!(Json::Array(vec![]).member("a"), None);
    assert_eq!(Json::Text("a".to_string()).member("a"), None);
}

#[test]
fn accessors_tell_the_kinds_apart() {
    let text = Json::Text("t".to_string());
    let number = Json::Number(Some(7));
    let array = Json::Array(vec![Json::Null]);
    let object = Json::Object(vec![]);
    assert_eq!(text.as_text(), Some(&"t".to_string()));
    assert_eq!(number.as_text(), None);
    assert_eq!(number.as_integer(), Some(7));
    assert_eq!(Json::Number(None).as_integer(), None);
    assert_eq!(text.as_integer(), None);
    assert_eq!(array.as_array(), Some(&vec![Json::Null]));
    assert_eq!(object.as_array(), None);
    assert_eq!(object.as_object(), Some(&vec![]));
    assert_eq!(array.as_object(), None);
}

#[test]
fn quote_writes_a_string_literal() {
    assert_eq!(quote("MZ123"), "\"MZ123\"");
    assert_eq!(quote(""), "\"\"");
    assert_eq!(quote("a\"b\\c"), "\"a\\\"b\\\\c\"");
    assert_eq!(quote("line\nbreak\ttab"), "\"line\\nbreak\\ttab\"");
    assert_eq!(quote("\u{1}"), "\"\\u0001\"");
    assert_eq!(quote("a/b+c="), "\"a/b+c=\"");
    assert_eq!(quote("\u{e9}"), "\"\u{e9}\"");
}

#[test]
fn quoted_string_parses_back() {
    let s = "q\"uo\\te\n\u{7f}\u{1f600}";
    assert_eq!(parse(&quote(s)), Some(Json::Text(s.to_string())));
}
