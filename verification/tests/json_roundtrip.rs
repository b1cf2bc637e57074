//! The JSON parser and serializer, and the round trip between them.

use fortnite_api::json::{parse_json, to_text, Json};

fn parse(s: &str) -> Option<Json> {
    parse_json(s)
}

#[test]
fn scalars_parse() {
    assert_eq!(parse("null"), Some(Json::Null));
    assert_eq!(parse(" true "), Some(Json::Bool(true)));
    assert_eq!(parse("false"), Some(Json::Bool(false)));
    assert_eq!(parse("123"), Some(Json::Num("123".to_string())));
    assert_eq!(parse("-1.5e3"), Some(Json::Num("-1.5e3".to_string())));
    assert_eq!(parse("\"hi\""), Some(Json::Str("hi".to_string())));
}

#[test]
fn malformed_documents_are_rejected() {
    assert_eq!(parse(""), None);
    assert_eq!(parse("nul"), None);
    assert_eq!(parse("truefalse"), None);
    assert_eq!(parse("01"), None);
    assert_eq!(parse("1."), None);
    assert_eq!(parse("1e"), None);
    assert_eq!(parse("+1"), None);
    assert_eq!(parse("\"unterminated"), None);
    assert_eq!(parse("\"bad\\q\""), None);
    assert_eq!(parse("\"lone\\uD800\""), None);
    assert_eq!(parse("[1,]"), None);
    assert_eq!(parse("[1 2]"), None);
    assert_eq!(parse("{\"a\":}"), None);
    assert_eq!(parse("{\"a\" 1}"), None);
    assert_eq!(parse("{a:1}"), None);
    assert_eq!(parse("[1] trailing"), None);
}

#[test]
fn escapes_decode() {
    assert_eq!(
        parse("\"a\\n\\t\\\\\\\"\\/\\b\\f\\r\""),
        Some(Json::Str("a\n\t\\\"/\u{8}\u{c}\r".to_string()))
    );
    assert_eq!(parse("\"\\u0041\""), Some(Json::Str("A".to_string())));
    assert_eq!(parse("\"\\u00e9\""), Some(Json::Str("\u{e9}".to_string())));
    assert_eq!(
        parse("\"\\uD83D\\uDE00\""),
        Some(Json::Str("\u{1F600}".to_string()))
    );
}

#[test]
fn nested_structures_parse() {
    let j = parse("{ \"a\" : [ 1 , true , \"x\" ] , \"b\" : { } }").unwrap();
    assert_eq!(
        j,
        Json::Obj(vec![
            (
                "a".to_string(),
                Json::Arr(vec![
                    Json::Num("1".to_string()),
                    Json::Bool(true),
                    Json::Str("x".to_string()),
                ])
            ),
            ("b".to_string(), Json::Obj(vec![])),
        ])
    );
}

#[test]
fn serializer_round_trips() {
    let samples = [
        "null",
        "true",
        "[1.5e3,-0.5,0]",
        "{\"a\":[{\"b\":\"c\"},null],\"d\":false}",
        "\"tab\\there\"",
    ];
    for s in samples {
        let j = parse(s).unwrap();
        let text = to_text(&j);
        let again = parse(&text).unwrap();
        assert_eq!(j, again);
    }
}

#[test]
fn serializer_keeps_number_lexemes() {
    let j = parse("[1.5e3,-0.5,100]").unwrap();
    assert_eq!(to_text(&j), "[1.5e3,-0.5,100]");
}

#[test]
fn serializer_escapes_what_it_must() {
    let j = Json::Str("q\"b\\s\n\u{1}".to_string());
    assert_eq!(to_text(&j), "\"q\\\"b\\\\s\\n\\u0001\"");
    assert_eq!(parse(&to_text(&j)).unwrap(), j);
}

#[test]
fn parsing_is_idempotent_on_the_same_bytes() {
    let body = "{\"status\":200,\"data\":[1,2],\"error\":null}";
    let first = parse(body);
    let second = parse(body);
    assert_eq!(first, second);
    assert!(first.is_some());
}

#[test]
fn duplicate_keys_keep_both_in_order() {
    let j = parse("{\"a\":1,\"a\":2}").unwrap();
    assert_eq!(
        j,
        Json::Obj(vec![
            ("a".to_string(), Json::Num("1".to_string())),
            ("a".to_string(), Json::Num("2".to_string())),
        ])
    );
    assert_eq!(to_text(&j), "{\"a\":1,\"a\":2}");
}
