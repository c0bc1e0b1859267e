use sentry_mattermost::json::Json;
use serde_json::Number;

fn text(s: &str) -> Json {
    Json::Text(s.to_string())
}

fn object(members: Vec<(&str, Json)>) -> Json {
    Json::Object(members.into_iter().map(|(name, member)| (name.to_string(), member)).collect())
}

#[test]
fn parse_reads_every_kind_of_value() {
    let json = Json::parse(r#"{"n":null,"b":true,"i":-3,"s":"x","a":[1,"two"],"o":{"k":"v"}}"#)
        .unwrap();
    assert!(matches!(json.get("n"), Some(Json::Null)));
    assert!(matches!(json.get("b"), Some(Json::Bool(true))));
    match json.get("i") {
        Some(Json::Number(n)) => assert_eq!(n.as_i64(), Some(-3)),
        other => panic!("{:?}", other),
    }
    assert_eq!(json.get("s").and_then(|s| s.as_str()), Some("x"));
    match json.get("a") {
        Some(Json::Array(items)) => {
            assert_eq!(items.len(), 2);
            assert!(matches!(&items[0], Json::Number(n) if n.as_u64() == Some(1)));
            assert_eq!(items[1].as_str(), Some("two"));
        }
        other => panic!("{:?}", other),
    }
    let inner = json.get("o").unwrap();
    assert!(inner.is_object());
    assert_eq!(inner.get("k").and_then(|k| k.as_str()), Some("v"));
    assert!(json.get("missing").is_none());
}

#[test]
fn parse_refuses_what_is_no_json() {
    assert!(Json::parse("").is_err());
    assert!(Json::parse("{").is_err());
    assert!(Json::parse("{\"a\":1,}").is_err());
    assert!(Json::parse("created").is_err());
    assert!(Json::parse("{} {}").is_err());
}

#[test]
fn parse_keeps_the_last_of_equal_names() {
    let json = Json::parse(r#"{"a":"first","a":"last"}"#).unwrap();
    assert_eq!(json.get("a").and_then(|a| a.as_str()), Some("last"));
}

#[test]
fn get_finds_members_of_objects_only() {
    let json = object(vec![("a", text("x")), ("b", Json::Null)]);
    assert_eq!(json.get("a").and_then(|a| a.as_str()), Some("x"));
    assert!(matches!(json.get("b"), Some(Json::Null)));
    assert!(json.get("c").is_none());
    assert!(json.get("").is_none());
    assert!(json.get("A").is_none());
    assert!(text("a").get("a").is_none());
    assert!(Json::Null.get("a").is_none());
    assert!(Json::Array(vec![text("a")]).get("a").is_none());
    assert!(Json::Array(vec![text("a")]).get("0").is_none());
    assert!(object(vec![]).get("a").is_none());
}

#[test]
fn get_prefers_the_last_of_equal_names() {
    let json = object(vec![("a", text("first")), ("b", text("other")), ("a", text("last"))]);
    assert_eq!(json.get("a").and_then(|a| a.as_str()), Some("last"));
    assert_eq!(json.get("b").and_then(|b| b.as_str()), Some("other"));
}

#[test]
fn as_str_is_for_strings_only() {
    assert_eq!(text("").as_str(), Some(""));
    assert_eq!(text("created").as_str(), Some("created"));
    assert_eq!(Json::Null.as_str(), None);
    assert_eq!(Json::Bool(true).as_str(), None);
    assert_eq!(Json::Number(Number::from(1)).as_str(), None);
    assert_eq!(Json::Array(vec![text("a")]).as_str(), None);
    assert_eq!(object(vec![("a", text("a"))]).as_str(), None);
}

#[test]
fn is_object_is_for_objects_only() {
    assert!(object(vec![]).is_object());
    assert!(object(vec![("a", Json::Null)]).is_object());
    assert!(!Json::Null.is_object());
    assert!(!text("{}").is_object());
    assert!(!Json::Array(vec![]).is_object());
}

#[test]
fn to_text_renders_compact_json() {
    assert_eq!(Json::Null.to_text(), "null");
    assert_eq!(Json::Bool(false).to_text(), "false");
    assert_eq!(Json::Number(Number::from(42)).to_text(), "42");
    assert_eq!(Json::Number(Number::from(-7)).to_text(), "-7");
    assert_eq!(text("plain").to_text(), "\"plain\"");
    assert_eq!(text("a \"quoted\"\nline").to_text(), "\"a \\\"quoted\\\"\\nline\"");
    assert_eq!(Json::Array(vec![Json::Null, text("x")]).to_text(), "[null,\"x\"]");
    assert_eq!(object(vec![]).to_text(), "{}");
}

#[test]
fn to_text_orders_members_by_name() {
    let json = object(vec![("b", text("2")), ("a", text("1")), ("c", Json::Array(vec![]))]);
    assert_eq!(json.to_text(), r#"{"a":"1","b":"2","c":[]}"#);
}

#[test]
fn to_text_renders_the_last_of_equal_names() {
    let json = object(vec![("a", text("first")), ("a", text("last"))]);
    assert_eq!(json.to_text(), r#"{"a":"last"}"#);
}

#[test]
fn to_text_of_parse_is_the_compact_form() {
    let json = Json::parse(" { \"z\" : [ 1 , 2.5 , { \"k\" : null } ] , \"a\" : \"\\u00e9\" } ")
        .unwrap();
    assert_eq!(json.to_text(), "{\"a\":\"é\",\"z\":[1,2.5,{\"k\":null}]}");
}
