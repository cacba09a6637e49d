use eop::json_tree::JsonNode;
use eop::revision::{extract_revision_info, revision_query_url};

fn jstr(s: &str) -> JsonNode {
    JsonNode::Str(s.to_string())
}

fn jobj(entries: Vec<(&str, JsonNode)>) -> JsonNode {
    JsonNode::Obj(entries.into_iter().map(|(k, v)| (k.to_string(), v)).collect())
}

fn reply_with(revisions: JsonNode) -> JsonNode {
    jobj(vec![(
        "query",
        jobj(vec![(
            "pages",
            jobj(vec![("123", jobj(vec![("revisions", revisions)]))]),
        )]),
    )])
}

#[test]
fn query_url_embeds_title_and_bounds() {
    assert_eq!(
        revision_query_url("LSD", "100"),
        "https://psychonautwiki.org/w/api.php?action=query&prop=revisions&titles=LSD&rvprop=\
         timestamp%7Cuser%7Ccomment%7Ccontent%7Cids&rvstartid=100&rvendid=100&format=json"
    );
}

#[test]
fn one_matching_revision_yields_the_triple() {
    let reply = reply_with(JsonNode::Arr(vec![jobj(vec![
        ("user", jstr("Author")),
        ("comment", jstr("tidy up")),
        ("parentid", JsonNode::Num(190)),
    ])]));
    let info = extract_revision_info(&reply).expect("one revision must be extracted");
    assert_eq!(info.user, "Author");
    assert_eq!(info.comment, "tidy up");
    assert_eq!(info.parent_id, "190");
}

#[test]
fn missing_revision_yields_nothing() {
    let reply = reply_with(JsonNode::Arr(vec![]));
    assert!(extract_revision_info(&reply).is_none());
}

#[test]
fn not_found_page_yields_nothing() {
    let reply = jobj(vec![(
        "query",
        jobj(vec![("pages", jobj(vec![("-1", jobj(vec![]))]))]),
    )]);
    assert!(extract_revision_info(&reply).is_none());
}

#[test]
fn more_than_one_page_yields_nothing() {
    let reply = jobj(vec![(
        "query",
        jobj(vec![(
            "pages",
            jobj(vec![
                ("123", jobj(vec![])),
                ("456", jobj(vec![])),
            ]),
        )]),
    )]);
    assert!(extract_revision_info(&reply).is_none());
}

#[test]
fn unparseable_reply_yields_nothing() {
    assert!(extract_revision_info(&JsonNode::Null).is_none());
    assert!(extract_revision_info(&jobj(vec![])).is_none());
}

#[test]
fn absent_fields_read_as_sentinel_text() {
    let reply = reply_with(JsonNode::Arr(vec![jobj(vec![("user", jstr("Author"))])]));
    let info = extract_revision_info(&reply).expect("one revision must be extracted");
    assert_eq!(info.comment, "null");
    assert_eq!(info.parent_id, "null");
}
