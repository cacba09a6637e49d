use eop::json_tree::JsonNode;

fn jstr(s: &str) -> JsonNode {
    JsonNode::Str(s.to_string())
}

fn jobj(entries: Vec<(&str, JsonNode)>) -> JsonNode {
    JsonNode::Obj(entries.into_iter().map(|(k, v)| (k.to_string(), v)).collect())
}

#[test]
fn dump_renders_compact_json() {
    let node = jobj(vec![
        ("a", JsonNode::Null),
        ("b", JsonNode::Bool(true)),
        ("c", JsonNode::Num(-7)),
        ("d", jstr("x")),
        ("e", JsonNode::Arr(vec![JsonNode::Num(1), JsonNode::Num(2)])),
    ]);
    assert_eq!(node.dump(), "{\"a\":null,\"b\":true,\"c\":-7,\"d\":\"x\",\"e\":[1,2]}");
    assert_eq!(JsonNode::Arr(vec![]).dump(), "[]");
    assert_eq!(jobj(vec![]).dump(), "{}");
}

#[test]
fn dump_escapes_strings() {
    let node = jstr("q\"b\\n\nt\tu\u{1}");
    assert_eq!(node.dump(), "\"q\\\"b\\\\n\\nt\\tu\\u0001\"");
}

#[test]
fn text_of_reads_strings_and_dumps_the_rest() {
    assert_eq!(jstr("plain").text_of(), "plain");
    assert_eq!(JsonNode::Null.text_of(), "null");
    assert_eq!(JsonNode::Bool(false).text_of(), "false");
    assert_eq!(JsonNode::Num(12).text_of(), "12");
}

#[test]
fn field_access_reads_first_match_or_null() {
    let node = jobj(vec![("k", jstr("v")), ("k", jstr("w"))]);
    assert_eq!(node.get_text("k"), "v");
    assert_eq!(node.get_text("missing"), "null");
    assert!(node.has_key("k"));
    assert!(!node.has_key("missing"));
    assert!(!jstr("s").has_key("k"));
}

#[test]
fn numeric_and_boolean_readings() {
    assert_eq!(JsonNode::Num(31).as_u32(), Some(31));
    assert_eq!(JsonNode::Num(-1).as_u32(), None);
    assert_eq!(JsonNode::Num(1 << 40).as_u32(), None);
    assert_eq!(jstr("31").as_u32(), None);
    assert_eq!(JsonNode::Bool(true).as_bool(), Some(true));
    assert_eq!(JsonNode::Num(1).as_bool(), None);
    assert!(JsonNode::Num(5).is_number());
    assert!(!jstr("5").is_number());
}

#[test]
fn emptiness_and_length() {
    assert!(JsonNode::Null.is_empty());
    assert!(jstr("").is_empty());
    assert!(!jstr("x").is_empty());
    assert!(JsonNode::Num(0).is_empty());
    assert!(!JsonNode::Num(3).is_empty());
    assert_eq!(JsonNode::Arr(vec![JsonNode::Null]).len(), 1);
    assert_eq!(jobj(vec![("a", JsonNode::Null)]).len(), 1);
    assert_eq!(jstr("abc").len(), 0);
}
