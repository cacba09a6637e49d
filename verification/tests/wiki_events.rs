use eop::json_tree::JsonNode;
use eop::revision::RevInfo;
use eop::wiki::{wiki_classify, wiki_resume, RevLookupKind, WikiAction};

fn jstr(s: &str) -> JsonNode {
    JsonNode::Str(s.to_string())
}

fn jobj(entries: Vec<(&str, JsonNode)>) -> JsonNode {
    JsonNode::Obj(entries.into_iter().map(|(k, v)| (k.to_string(), v)).collect())
}

fn edit_event() -> JsonNode {
    jobj(vec![
        ("type", jstr("edit")),
        ("user", jstr("Alice")),
        ("title", jstr("LSD")),
        ("comment", jstr("")),
        ("revision", jobj(vec![("new", JsonNode::Num(100)), ("old", JsonNode::Num(99))])),
        ("minor", JsonNode::Bool(true)),
        ("patrolled", JsonNode::Bool(false)),
        ("bot", JsonNode::Bool(false)),
    ])
}

#[test]
fn edit_event_scenario() {
    match wiki_classify(&edit_event()) {
        WikiAction::Emit(msg) => {
            assert!(msg.loud);
            assert!(msg.text.contains("Alice"));
            assert!(msg.text.contains("https://psychonautwiki.org/wiki/User:Alice"));
            assert!(msg.text.contains("<b>minor</b>"));
            assert!(msg.text.contains("without summary"));
            assert_eq!(
                msg.text,
                "| <b>minor</b> | <a href=\"https://psychonautwiki.org/wiki/User:Alice\">Alice\
                 </a> edited <a href=\"https://psychonautwiki.org/w/index.php?title=LSD&type=\
                 revision&diff=100&oldid=99\">LSD</a> without summary"
            );
        },
        _ => panic!("an edit event must produce a message"),
    }
}

#[test]
fn edit_event_title_is_double_encoded() {
    let evt = jobj(vec![
        ("type", jstr("edit")),
        ("user", jstr("Bob")),
        ("title", jstr("A B")),
        ("comment", jstr("c")),
        ("revision", jobj(vec![("new", JsonNode::Num(2)), ("old", JsonNode::Num(1))])),
        ("minor", JsonNode::Bool(false)),
        ("patrolled", JsonNode::Bool(false)),
        ("bot", JsonNode::Bool(false)),
    ]);
    match wiki_classify(&evt) {
        WikiAction::Emit(msg) => {
            assert!(msg.text.contains("title=A%2520B"));
            assert!(msg.text.contains("with summary: c"));
            assert!(!msg.text.starts_with("| "));
        },
        _ => panic!("an edit event must produce a message"),
    }
}

#[test]
fn new_event_message() {
    let evt = jobj(vec![
        ("type", jstr("new")),
        ("user", jstr("Carol")),
        ("title", jstr("Mescaline")),
        ("comment", jstr("start")),
        ("revision", jobj(vec![("new", JsonNode::Num(5))])),
        ("minor", JsonNode::Bool(false)),
        ("patrolled", JsonNode::Bool(true)),
        ("bot", JsonNode::Bool(false)),
    ]);
    match wiki_classify(&evt) {
        WikiAction::Emit(msg) => {
            assert!(msg.loud);
            assert!(msg.text.starts_with("[new] | <b>patrolled</b> | "));
            assert!(msg.text.contains(" created page "));
            assert!(msg.text.contains("title=Mescaline&oldid=5"));
            assert!(msg.text.contains("with summary: start"));
        },
        _ => panic!("a new-page event must produce a message"),
    }
}

#[test]
fn null_sentinel_is_dropped() {
    let evt = jobj(vec![("type", jstr("null"))]);
    assert!(matches!(wiki_classify(&evt), WikiAction::Ignore));
    // an absent type field reads as the sentinel text too
    let empty = jobj(vec![]);
    assert!(matches!(wiki_classify(&empty), WikiAction::Ignore));
}

#[test]
fn unknown_type_gets_fallback_dump() {
    let evt = jobj(vec![("type", jstr("weird"))]);
    match wiki_classify(&evt) {
        WikiAction::Emit(msg) => {
            assert!(msg.loud);
            assert_eq!(msg.text, "[not_implemented] {\"type\":\"weird\"}");
        },
        _ => panic!("an unknown kind must produce the fallback message"),
    }
}

#[test]
fn unknown_log_type_gets_corrected_dump() {
    let evt = jobj(vec![("type", jstr("log")), ("log_type", jstr("wei+rd"))]);
    match wiki_classify(&evt) {
        WikiAction::Emit(msg) => {
            assert_eq!(msg.text, "[log_not_implemented] {\"type\":\"log\",\"log_type\":\"wei%2brd\"}");
        },
        _ => panic!("an unknown log kind must produce the fallback message"),
    }
}

#[test]
fn log_delete_message() {
    let evt = jobj(vec![
        ("type", jstr("log")),
        ("log_type", jstr("delete")),
        ("user", jstr("Dave")),
        ("title", jstr("Spam")),
    ]);
    match wiki_classify(&evt) {
        WikiAction::Emit(msg) => {
            assert_eq!(
                msg.text,
                "[log/delete] <a href=\"https://psychonautwiki.org/wiki/User:Dave\">Dave</a> \
                 deleted page: <a href=\"https://psychonautwiki.org/wiki/Spam\">Spam</a>"
            );
        },
        _ => panic!("a delete log must produce a message"),
    }
}

#[test]
fn log_move_message() {
    let evt = jobj(vec![
        ("type", jstr("log")),
        ("log_type", jstr("move")),
        ("user", jstr("Eve")),
        ("title", jstr("Old")),
        ("log_params", jobj(vec![("target", jstr("New"))])),
    ]);
    match wiki_classify(&evt) {
        WikiAction::Emit(msg) => {
            assert!(msg.text.starts_with("[log/move] "));
            assert!(msg.text.contains(" moved "));
            assert!(msg.text.contains("https://psychonautwiki.org/wiki/Old"));
            assert!(msg.text.contains("https://psychonautwiki.org/wiki/New"));
        },
        _ => panic!("a move log must produce a message"),
    }
}

#[test]
fn log_thanks_message() {
    let evt = jobj(vec![
        ("type", jstr("log")),
        ("log_type", jstr("thanks")),
        ("log_action_comment", jstr("A thanked B")),
    ]);
    match wiki_classify(&evt) {
        WikiAction::Emit(msg) => {
            assert_eq!(msg.text, "[log/thanks] A thanked B");
        },
        _ => panic!("a thanks log must produce a message"),
    }
}

#[test]
fn log_usermerge_decodes_comment() {
    let evt = jobj(vec![
        ("type", jstr("log")),
        ("log_type", jstr("usermerge")),
        ("user", jstr("Op")),
        ("log_action_comment", jstr("merged%20a%20user")),
    ]);
    match wiki_classify(&evt) {
        WikiAction::Emit(msg) => {
            assert!(msg.text.ends_with(" merged a user"));
        },
        _ => panic!("a usermerge log must produce a message"),
    }
}

#[test]
fn approval_approve_requests_enrichment() {
    let evt = jobj(vec![
        ("type", jstr("log")),
        ("log_type", jstr("approval")),
        ("log_action", jstr("approve")),
        ("user", jstr("Mod")),
        ("title", jstr("Page")),
        ("log_params", jobj(vec![
            ("rev_id", JsonNode::Num(200)),
            ("old_rev_id", JsonNode::Num(150)),
        ])),
    ]);
    match wiki_classify(&evt) {
        WikiAction::NeedRevision { title, rev_id, kind } => {
            assert_eq!(title, "Page");
            assert_eq!(rev_id, 200);
            assert_eq!(kind, RevLookupKind::Approve);
        },
        _ => panic!("an approval must ask for enrichment"),
    }
}

#[test]
fn approval_resume_with_and_without_context() {
    let evt = jobj(vec![
        ("type", jstr("log")),
        ("log_type", jstr("approval")),
        ("log_action", jstr("approve")),
        ("user", jstr("Mod")),
        ("title", jstr("Page")),
        ("log_params", jobj(vec![
            ("rev_id", JsonNode::Num(200)),
            ("old_rev_id", JsonNode::Num(150)),
        ])),
    ]);
    let rev = Some(RevInfo {
        user: "Author".to_string(),
        comment: "tidy".to_string(),
        parent_id: "190".to_string(),
    });
    let enriched = wiki_resume(&evt, RevLookupKind::Approve, &rev);
    assert!(enriched.loud);
    assert_eq!(
        enriched.text,
        "[log/approval] <a href=\"https://psychonautwiki.org/wiki/User:Mod\">Mod</a> approved \
         <a href=\"https://psychonautwiki.org/w/index.php?title=Page&type=revision&diff=200&\
         oldid=190\">revision 200</a> by <a href=\"https://psychonautwiki.org/wiki/User:Author\"\
         >Author</a> (\"tidy\") of <a href=\"https://psychonautwiki.org/wiki/Page\">Page</a>"
    );
    let degraded = wiki_resume(&evt, RevLookupKind::Approve, &None);
    assert!(!degraded.text.contains(" by "));
    assert!(degraded.text.contains("oldid=150"));
    assert!(degraded.text.contains("revision 200"));
}

#[test]
fn approval_unapprove_keys_on_old_revision() {
    let evt = jobj(vec![
        ("type", jstr("log")),
        ("log_type", jstr("approval")),
        ("log_action", jstr("unapprove")),
        ("user", jstr("Mod")),
        ("title", jstr("Page")),
        ("log_params", jobj(vec![("old_rev_id", JsonNode::Num(150))])),
    ]);
    match wiki_classify(&evt) {
        WikiAction::NeedRevision { rev_id, kind, .. } => {
            assert_eq!(rev_id, 150);
            assert_eq!(kind, RevLookupKind::Unapprove);
        },
        _ => panic!("a revoked approval must ask for enrichment"),
    }
    let msg = wiki_resume(&evt, RevLookupKind::Unapprove, &None);
    assert!(msg.text.contains(" revoked the approval of "));
    assert!(msg.text.contains("(was <a href=\""));
    assert!(msg.text.contains("revision 150"));
}

#[test]
fn automatic_patrols_are_suppressed() {
    let auto_evt = jobj(vec![
        ("type", jstr("log")),
        ("log_type", jstr("patrol")),
        ("user", jstr("P")),
        ("title", jstr("T")),
        ("log_params", jobj(vec![
            ("auto", JsonNode::Num(1)),
            ("curid", JsonNode::Num(10)),
            ("previd", JsonNode::Num(9)),
        ])),
    ]);
    assert!(matches!(wiki_classify(&auto_evt), WikiAction::Ignore));

    let no_auto = jobj(vec![
        ("type", jstr("log")),
        ("log_type", jstr("patrol")),
        ("log_params", jobj(vec![])),
    ]);
    assert!(matches!(wiki_classify(&no_auto), WikiAction::Ignore));
}

#[test]
fn manual_patrol_requests_enrichment() {
    let evt = jobj(vec![
        ("type", jstr("log")),
        ("log_type", jstr("patrol")),
        ("user", jstr("P")),
        ("title", jstr("T")),
        ("log_params", jobj(vec![
            ("auto", JsonNode::Num(0)),
            ("curid", JsonNode::Num(10)),
            ("previd", JsonNode::Num(9)),
        ])),
    ]);
    match wiki_classify(&evt) {
        WikiAction::NeedRevision { title, rev_id, kind } => {
            assert_eq!(title, "T");
            assert_eq!(rev_id, 10);
            assert_eq!(kind, RevLookupKind::Patrol);
        },
        _ => panic!("a manual patrol must ask for enrichment"),
    }
    let msg = wiki_resume(&evt, RevLookupKind::Patrol, &None);
    assert!(msg.text.starts_with("[log/patrol] "));
    assert!(msg.text.contains(" marked "));
    assert!(msg.text.ends_with(" patrolled"));
    assert!(msg.text.contains("diff=10&oldid=9"));
}

#[test]
fn log_rights_message() {
    let evt = jobj(vec![
        ("type", jstr("log")),
        ("log_type", jstr("rights")),
        ("user", jstr("Admin")),
        ("log_action_comment", jstr("changed groups")),
    ]);
    match wiki_classify(&evt) {
        WikiAction::Emit(msg) => {
            assert!(msg.text.starts_with("[log/rights] "));
            assert!(msg.text.ends_with(" changed groups"));
        },
        _ => panic!("a rights log must produce a message"),
    }
}
