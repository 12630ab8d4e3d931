use ama::json::parse_json;
use ama::JsonValue;

#[test]
fn parses_scalars_and_nesting() {
    let v = parse_json(" { \"a\" : [ 1 , true , null , \"s\" ] , \"b\" : { \"c\" : false } } ")
        .expect("valid JSON parses");
    let a = v.get("a").expect("field a");
    match a {
        JsonValue::Arr(items) => {
            assert_eq!(items.len(), 4);
            assert_eq!(items[0].as_u32(), Some(1));
            assert!(matches!(items[1], JsonValue::Bool(true)));
            assert!(matches!(items[2], JsonValue::Null));
            assert_eq!(items[3].str_value().as_deref(), Some("s"));
        }
        other => panic!("expected an array, got {:?}", other),
    }
    let c = v.get("b").and_then(|b| b.get("c")).expect("nested field");
    assert!(matches!(c, JsonValue::Bool(false)));
}

#[test]
fn rejects_truncated_and_trailing_text() {
    assert!(parse_json("{\"a\":1").is_none());
    assert!(parse_json("{\"a\":1} trailing").is_none());
    assert!(parse_json("").is_none());
    assert!(parse_json("{,}").is_none());
}

#[test]
fn unicode_escape_decodes_and_surrogates_are_refused() {
    let v = parse_json("{\"k\":\"\\u0041\\u00e9\"}").expect("escapes decode");
    assert_eq!(v.get("k").unwrap().str_value().as_deref(), Some("A\u{e9}"));
    assert!(parse_json("{\"k\":\"\\uD800\"}").is_none());
}

#[test]
fn raw_control_characters_are_refused_escaped_ones_accepted() {
    assert!(parse_json("{\"k\":\"a\nb\"}").is_none());
    let v = parse_json("{\"k\":\"a\\nb\"}").expect("escaped newline is fine");
    assert_eq!(v.get("k").unwrap().str_value().as_deref(), Some("a\nb"));
}

#[test]
fn number_reading_respects_u32_bounds() {
    assert_eq!(parse_json("4294967295").unwrap().as_u32(), Some(4294967295));
    assert_eq!(parse_json("4294967296").unwrap().as_u32(), None);
    assert_eq!(parse_json("0").unwrap().as_u32(), Some(0));
    // Fractions and signs stay numbers but name no u32.
    assert_eq!(parse_json("12.5").unwrap().as_u32(), None);
    assert_eq!(parse_json("-3").unwrap().as_u32(), None);
    // Leading zeros are not JSON numbers.
    assert!(parse_json("01").is_none());
}

#[test]
fn first_field_wins_on_duplicate_keys() {
    let v = parse_json("{\"k\":1,\"k\":2}").expect("duplicates parse");
    assert_eq!(v.get("k").unwrap().as_u32(), Some(1));
}

#[test]
fn encoder_canonicalises_whitespace() {
    let v = parse_json(" { \"a\" : [ 1 , true ] } ").unwrap();
    assert_eq!(v.to_text(), "{\"a\":[1,true]}");
}

#[test]
fn duplicate_value_equals_original() {
    let v = parse_json("{\"a\":[1,{\"b\":\"x\"}]}").unwrap();
    let d = v.duplicate();
    assert_eq!(v.to_text(), d.to_text());
}
