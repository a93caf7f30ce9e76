use yctrl::json::json_bool;
use yctrl::json::json_str;
use yctrl::json::json_u32;
use yctrl::json::obj_get;
use yctrl::json::parse_json;
use yctrl::json::Json;

#[test]
fn scalars_parse() {
    assert_eq!(parse_json(b"null"), Some(Json::Null));
    assert_eq!(parse_json(b"true"), Some(Json::Bool(true)));
    assert_eq!(parse_json(b" false "), Some(Json::Bool(false)));
    assert_eq!(parse_json(b"42"), Some(Json::Num(b"42".to_vec())));
    assert_eq!(parse_json(b"-1.5e3"), Some(Json::Num(b"-1.5e3".to_vec())));
    assert_eq!(parse_json(b"\"hi\""), Some(Json::Str("hi".to_string())));
}

#[test]
fn arrays_and_objects_parse() {
    let doc = parse_json(b"[1, 2, 3]").unwrap();
    assert_eq!(
        doc,
        Json::Arr(vec![
            Json::Num(b"1".to_vec()),
            Json::Num(b"2".to_vec()),
            Json::Num(b"3".to_vec()),
        ])
    );
    let doc = parse_json(b"{\"a\": 1, \"b\": [true]}").unwrap();
    let a = obj_get(&doc, "a").unwrap();
    assert_eq!(json_u32(a), Some(1));
    let b = obj_get(&doc, "b").unwrap();
    assert_eq!(b, &Json::Arr(vec![Json::Bool(true)]));
    assert!(obj_get(&doc, "c").is_none());
}

#[test]
fn relaxed_forms_parse() {
    let doc = parse_json(b"{tag: 'term', n: 4,}").unwrap();
    assert_eq!(json_str(obj_get(&doc, "tag").unwrap()), Some(&"term".to_string()));
    assert_eq!(json_u32(obj_get(&doc, "n").unwrap()), Some(4));
    assert_eq!(parse_json(b"[1, 2,]"), parse_json(b"[1,2]"));
}

#[test]
fn string_escapes_are_decoded() {
    assert_eq!(parse_json(b"\"a\\nb\""), Some(Json::Str("a\nb".to_string())));
    assert_eq!(parse_json(b"\"\\u0041\""), Some(Json::Str("A".to_string())));
    assert_eq!(parse_json(b"\"\\\"\""), Some(Json::Str("\"".to_string())));
    // an astral code point spelled as a surrogate pair
    assert_eq!(
        parse_json(b"\"\\uD83D\\uDE00\""),
        Some(Json::Str("\u{1F600}".to_string()))
    );
    // a lone surrogate is malformed
    assert_eq!(parse_json(b"\"\\uD83D\""), None);
}

#[test]
fn the_first_of_two_equal_keys_wins() {
    let doc = parse_json(b"{\"a\": 1, \"a\": 2}").unwrap();
    assert_eq!(json_u32(obj_get(&doc, "a").unwrap()), Some(1));
}

#[test]
fn malformed_documents_fail() {
    assert_eq!(parse_json(b""), None);
    assert_eq!(parse_json(b"{"), None);
    assert_eq!(parse_json(b"[1 2]"), None);
    assert_eq!(parse_json(b"\"unterminated"), None);
    assert_eq!(parse_json(b"{a 1}"), None);
    assert_eq!(parse_json(b"true false"), None);
    assert_eq!(parse_json(b"[,]"), None);
}

#[test]
fn readers_reject_wrong_shapes() {
    let doc = parse_json(b"{\"a\": \"x\", \"n\": 4294967296, \"m\": -1}").unwrap();
    assert_eq!(json_u32(obj_get(&doc, "a").unwrap()), None);
    // out of range for a 32-bit id
    assert_eq!(json_u32(obj_get(&doc, "n").unwrap()), None);
    // negative numbers never name an id
    assert_eq!(json_u32(obj_get(&doc, "m").unwrap()), None);
    assert_eq!(json_bool(obj_get(&doc, "a").unwrap()), None);
    assert_eq!(json_str(&Json::Null), None);
}
