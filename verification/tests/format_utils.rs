use eop::percent::{percent_to_url, plusexclquest_to_url, urldecode, urlencode};
use eop::sink::{Message, ParseMode, SourceIdentity, DEFAULT_CHANNEL_ID};
use eop::text::{cond_string, explain_comment, htmlescape_str, i64_dec_string, replace_char, str_eq, u64_dec_string};

#[test]
fn explain_comment_empty() {
    assert_eq!(explain_comment(""), "without summary");
}

#[test]
fn explain_comment_nonempty() {
    assert_eq!(explain_comment("fixed a typo"), "with summary: fixed a typo");
}

#[test]
fn cond_string_picks_by_condition() {
    assert_eq!(cond_string(true, "yes", "no"), "yes");
    assert_eq!(cond_string(false, "yes", "no"), "no");
}

#[test]
fn str_eq_compares_contents() {
    assert!(str_eq("abc", "abc"));
    assert!(!str_eq("abc", "abd"));
    assert!(!str_eq("abc", "ab"));
    assert!(str_eq("", ""));
}

#[test]
fn htmlescape_minimal_entities() {
    assert_eq!(htmlescape_str("<foo@bar.com>"), "&lt;foo@bar.com&gt;");
    assert_eq!(htmlescape_str("a&b\"c'd"), "a&amp;b&quot;c&#x27;d");
    assert_eq!(htmlescape_str("plain"), "plain");
}

#[test]
fn urlencode_query_set() {
    assert_eq!(urlencode("foo bar"), "foo%20bar");
    assert_eq!(urlencode("a\"#<>"), "a%22%23%3C%3E");
    assert_eq!(urlencode("LSD"), "LSD");
    // non-ASCII text is encoded byte by byte
    assert_eq!(urlencode("\u{e9}"), "%C3%A9");
}

#[test]
fn percent_to_url_escapes_percent() {
    assert_eq!(percent_to_url("100%"), "100%25");
    assert_eq!(percent_to_url("foo%20bar"), "foo%2520bar");
}

#[test]
fn plusexclquest_escapes_three() {
    assert_eq!(plusexclquest_to_url("a+b&c?d"), "a%2bb%26c%3fd");
    assert_eq!(plusexclquest_to_url("clean"), "clean");
}

#[test]
fn double_encode_correction_idempotent_on_clean_input() {
    let clean = "a clean string without specials";
    let once = plusexclquest_to_url(&percent_to_url(clean));
    let twice = plusexclquest_to_url(&percent_to_url(&once));
    assert_eq!(once, clean);
    assert_eq!(twice, once);
}

#[test]
fn urldecode_decodes_sequences() {
    assert_eq!(urldecode("a%20b"), "a b");
    assert_eq!(urldecode("%C3%A9"), "\u{e9}");
    // an incomplete escape passes through
    assert_eq!(urldecode("100%"), "100%");
    // bytes that are not well-formed text fall back to the marker
    assert_eq!(urldecode("%FF"), "<string conversion failed>");
}

#[test]
fn replace_char_replaces_all() {
    assert_eq!(replace_char("a.b.c", '.', "--"), "a--b--c");
    assert_eq!(replace_char("abc", 'x', "y"), "abc");
}

#[test]
fn decimal_renderings() {
    assert_eq!(u64_dec_string(0), "0");
    assert_eq!(u64_dec_string(1234), "1234");
    assert_eq!(i64_dec_string(-42), "-42");
    assert_eq!(i64_dec_string(7), "7");
    assert_eq!(i64_dec_string(i64::MIN), "-9223372036854775808");
}

#[test]
fn emit_request_builds_banner_and_flags() {
    let source = SourceIdentity::new("<b>MediaWiki</b>", ParseMode::Html);
    let req = source.emit_request(&Message { text: String::from("hello"), loud: false });
    assert_eq!(req.text, "\u{2942} <b>MediaWiki</b> \u{27f9} hello");
    assert_eq!(req.channel_id, DEFAULT_CHANNEL_ID);
    assert_eq!(req.channel_id, -1001050593583);
    assert!(matches!(req.parse_mode, ParseMode::Html));
    assert!(req.disable_preview);
    assert!(req.disable_notification);

    let loud = source.emit_request(&Message { text: String::from("hi"), loud: true });
    assert!(!loud.disable_notification);
}
