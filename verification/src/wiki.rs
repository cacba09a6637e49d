//! The wiki change-event classifier: dispatch on the event type, the log
//! sub-kinds, the suppression rules (the "null" sentinel and fully automatic
//! patrols), the enrichment hand-off for approvals and patrols, and every
//! message template.
use vstd::prelude::*;
use vstd::string::*;
use vstd::utf8::encode_utf8;

use crate::json_tree::{JsonNode, spec_get, spec_as_u32, spec_as_bool, spec_text_of, spec_dump};
use crate::percent::{
    urlencode, percent_to_url, plusexclquest_to_url, query_encoded, spec_urldecoded, urldecode,
};
use crate::revision::RevInfo;
use crate::sink::Message;
use crate::text::{
    append_link, append_u64_dec, dec_str, explain_comment, replaced, spec_explain_comment,
    spec_link, str_eq, u64_dec_string,
};

verus! {

/// A page title as it stands inside a diff link: percent-encoded for a
/// query-string position, then protected against a second decode.
pub open spec fn enc_title(page: Seq<char>) -> Seq<char> {
    replaced(query_encoded(encode_utf8(page)), '%', "%25"@)
}

fn encode_title(page: &str) -> (r: String)
    ensures
        r@ == enc_title(page@),
{
    let encoded = urlencode(page);
    percent_to_url(encoded.as_str())
}

/// The public URL of a wiki page.
pub open spec fn wiki_page_url(page: Seq<char>) -> Seq<char> {
    "https://psychonautwiki.org/wiki/"@ + page
}

pub fn get_url(page: &str) -> (r: String)
    ensures
        r@ == wiki_page_url(page@),
{
    let mut r = "https://psychonautwiki.org/wiki/".to_owned();
    r.append(page);
    r
}

/// The public URL of a user's page.
pub open spec fn wiki_user_url(user: Seq<char>) -> Seq<char> {
    wiki_page_url("User:"@ + user)
}

pub fn get_user_url(user: &str) -> (r: String)
    ensures
        r@ == wiki_user_url(user@),
{
    let mut target = "User:".to_owned();
    target.append(user);
    get_url(target.as_str())
}

/// The optional flag list: each flag independently present, each followed by
/// one space.
pub open spec fn spec_flags(minor: bool, patrolled: bool, bot: bool) -> Seq<char> {
    (if minor {
        "<b>minor</b> "@
    } else {
        Seq::<char>::empty()
    }) + (if patrolled {
        "<b>patrolled</b> "@
    } else {
        Seq::<char>::empty()
    }) + (if bot {
        "<b>bot</b> "@
    } else {
        Seq::<char>::empty()
    })
}

/// The flag list as a message prefix; empty when no flag is set.
pub open spec fn spec_flags_prefix(minor: bool, patrolled: bool, bot: bool) -> Seq<char> {
    if minor || patrolled || bot {
        "| "@ + spec_flags(minor, patrolled, bot) + "| "@
    } else {
        Seq::<char>::empty()
    }
}

fn append_flags_prefix(out: &mut String, minor: bool, patrolled: bool, bot: bool)
    ensures
        final(out)@ == old(out)@ + spec_flags_prefix(minor, patrolled, bot),
{
    if minor || patrolled || bot {
        out.append("| ");
        if minor {
            out.append("<b>minor</b> ");
        }
        if patrolled {
            out.append("<b>patrolled</b> ");
        }
        if bot {
            out.append("<b>bot</b> ");
        }
        out.append("| ");
        proof {
            assert(final(out)@ =~= old(out)@ + spec_flags_prefix(minor, patrolled, bot));
        }
    }
}

/// The deep link to a specific diff of a page.
pub open spec fn edit_diff_url(page: Seq<char>, cur: u32, prev: u32) -> Seq<char> {
    "https://psychonautwiki.org/w/index.php?title="@ + enc_title(page) + "&type=revision&diff="@
        + dec_str(cur as nat) + "&oldid="@ + dec_str(prev as nat)
}

/// The deep link to the first revision of a new page.
pub open spec fn new_page_url(page: Seq<char>, cur: u32) -> Seq<char> {
    "https://psychonautwiki.org/w/index.php?title="@ + enc_title(page) + "&oldid="@ + dec_str(
        cur as nat,
    )
}

// Textual readings of the event fields the handlers use.
pub open spec fn evt_user(evt: JsonNode) -> Seq<char> {
    spec_text_of(spec_get(evt, "user"@))
}

pub open spec fn evt_title(evt: JsonNode) -> Seq<char> {
    spec_text_of(spec_get(evt, "title"@))
}

pub open spec fn evt_comment(evt: JsonNode) -> Seq<char> {
    spec_text_of(spec_get(evt, "comment"@))
}

pub open spec fn evt_log_comment(evt: JsonNode) -> Seq<char> {
    spec_text_of(spec_get(evt, "log_action_comment"@))
}

/// A numeric parameter of the event's log record.
pub open spec fn lp_u32(evt: JsonNode, key: Seq<char>) -> Option<u32> {
    spec_as_u32(spec_get(spec_get(evt, "log_params"@), key))
}

/// The edit message: optional flags, the actor linked, the page linked to
/// the exact diff, and the comment clause.
pub open spec fn wiki_edit_msg(
    user: Seq<char>,
    page: Seq<char>,
    comment: Seq<char>,
    cur: u32,
    prev: u32,
    minor: bool,
    patrolled: bool,
    bot: bool,
) -> Seq<char> {
    spec_flags_prefix(minor, patrolled, bot) + spec_link(wiki_user_url(user), user) + " edited "@
        + spec_link(edit_diff_url(page, cur, prev), page) + " "@ + spec_explain_comment(comment)
}

/// The new-page message.
pub open spec fn wiki_new_msg(
    user: Seq<char>,
    page: Seq<char>,
    comment: Seq<char>,
    cur: u32,
    minor: bool,
    patrolled: bool,
    bot: bool,
) -> Seq<char> {
    "[new] "@ + spec_flags_prefix(minor, patrolled, bot) + spec_link(wiki_user_url(user), user)
        + " created page "@ + spec_link(new_page_url(page, cur), page) + " "@
        + spec_explain_comment(comment)
}

pub open spec fn wiki_edit_wf(evt: JsonNode) -> bool {
    &&& spec_as_u32(spec_get(spec_get(evt, "revision"@), "new"@)) is Some
    &&& spec_as_u32(spec_get(spec_get(evt, "revision"@), "old"@)) is Some
    &&& spec_as_bool(spec_get(evt, "minor"@)) is Some
    &&& spec_as_bool(spec_get(evt, "patrolled"@)) is Some
    &&& spec_as_bool(spec_get(evt, "bot"@)) is Some
}

pub open spec fn wiki_new_wf(evt: JsonNode) -> bool {
    &&& spec_as_u32(spec_get(spec_get(evt, "revision"@), "new"@)) is Some
    &&& spec_as_bool(spec_get(evt, "minor"@)) is Some
    &&& spec_as_bool(spec_get(evt, "patrolled"@)) is Some
    &&& spec_as_bool(spec_get(evt, "bot"@)) is Some
}

pub open spec fn edit_msg_of(evt: JsonNode) -> Seq<char> {
    wiki_edit_msg(
        evt_user(evt),
        evt_title(evt),
        evt_comment(evt),
        spec_as_u32(spec_get(spec_get(evt, "revision"@), "new"@)).unwrap(),
        spec_as_u32(spec_get(spec_get(evt, "revision"@), "old"@)).unwrap(),
        spec_as_bool(spec_get(evt, "minor"@)).unwrap(),
        spec_as_bool(spec_get(evt, "patrolled"@)).unwrap(),
        spec_as_bool(spec_get(evt, "bot"@)).unwrap(),
    )
}

pub open spec fn new_msg_of(evt: JsonNode) -> Seq<char> {
    wiki_new_msg(
        evt_user(evt),
        evt_title(evt),
        evt_comment(evt),
        spec_as_u32(spec_get(spec_get(evt, "revision"@), "new"@)).unwrap(),
        spec_as_bool(spec_get(evt, "minor"@)).unwrap(),
        spec_as_bool(spec_get(evt, "patrolled"@)).unwrap(),
        spec_as_bool(spec_get(evt, "bot"@)).unwrap(),
    )
}

/// Renders an edit event.
pub fn format_evt_edit(evt: &JsonNode) -> (r: Message)
    requires
        wiki_edit_wf(*evt),
    ensures
        r.text@ == edit_msg_of(*evt),
        r.loud,
{
    let user = evt.get_text("user");
    let page = evt.get_text("title");
    let comment = evt.get_text("comment");
    let evt_curid = evt.get2_u32("revision", "new").unwrap();
    let evt_previd = evt.get2_u32("revision", "old").unwrap();
    let evt_is_minor = evt.get_bool("minor").unwrap();
    let evt_is_patrolled = evt.get_bool("patrolled").unwrap();
    let evt_is_bot = evt.get_bool("bot").unwrap();

    let mut url = "https://psychonautwiki.org/w/index.php?title=".to_owned();
    let enc = encode_title(page.as_str());
    url.append(enc.as_str());
    url.append("&type=revision&diff=");
    append_u64_dec(&mut url, evt_curid as u64);
    url.append("&oldid=");
    append_u64_dec(&mut url, evt_previd as u64);
    proof {
        assert(url@ =~= edit_diff_url(page@, evt_curid, evt_previd));
    }
    let mut text = String::new();
    append_flags_prefix(&mut text, evt_is_minor, evt_is_patrolled, evt_is_bot);
    let uurl = get_user_url(user.as_str());
    append_link(&mut text, uurl.as_str(), user.as_str());
    text.append(" edited ");
    append_link(&mut text, url.as_str(), page.as_str());
    text.append(" ");
    let expl = explain_comment(comment.as_str());
    text.append(expl.as_str());
    proof {
        assert(text@ =~= edit_msg_of(*evt));
    }
    Message { text, loud: true }
}

/// Renders a new-page event.
pub fn format_evt_new(evt: &JsonNode) -> (r: Message)
    requires
        wiki_new_wf(*evt),
    ensures
        r.text@ == new_msg_of(*evt),
        r.loud,
{
    let user = evt.get_text("user");
    let page = evt.get_text("title");
    let comment = evt.get_text("comment");
    let evt_curid = evt.get2_u32("revision", "new").unwrap();
    let evt_is_minor = evt.get_bool("minor").unwrap();
    let evt_is_patrolled = evt.get_bool("patrolled").unwrap();
    let evt_is_bot = evt.get_bool("bot").unwrap();

    let mut url = "https://psychonautwiki.org/w/index.php?title=".to_owned();
    let enc = encode_title(page.as_str());
    url.append(enc.as_str());
    url.append("&oldid=");
    append_u64_dec(&mut url, evt_curid as u64);
    proof {
        assert(url@ =~= new_page_url(page@, evt_curid));
    }
    let mut text = "[new] ".to_owned();
    append_flags_prefix(&mut text, evt_is_minor, evt_is_patrolled, evt_is_bot);
    let uurl = get_user_url(user.as_str());
    append_link(&mut text, uurl.as_str(), user.as_str());
    text.append(" created page ");
    append_link(&mut text, url.as_str(), page.as_str());
    text.append(" ");
    let expl = explain_comment(comment.as_str());
    text.append(expl.as_str());
    proof {
        assert(text@ =~= new_msg_of(*evt));
    }
    Message { text, loud: true }
}

// The simple log messages: a tag, the actor linked, and a comment or target.
pub open spec fn avatar_msg_of(evt: JsonNode) -> Seq<char> {
    "[log/avatar] "@ + spec_link(wiki_user_url(evt_user(evt)), evt_user(evt)) + " "@ + evt_comment(
        evt,
    )
}

pub open spec fn block_msg_of(evt: JsonNode) -> Seq<char> {
    "[log/ban] "@ + spec_link(wiki_user_url(evt_user(evt)), evt_user(evt)) + " "@
        + evt_log_comment(evt)
}

pub open spec fn delete_msg_of(evt: JsonNode) -> Seq<char> {
    "[log/delete] "@ + spec_link(wiki_user_url(evt_user(evt)), evt_user(evt))
        + " deleted page: "@ + spec_link(wiki_page_url(evt_title(evt)), evt_title(evt))
}

pub open spec fn move_msg_of(evt: JsonNode) -> Seq<char> {
    let target = spec_text_of(spec_get(spec_get(evt, "log_params"@), "target"@));
    "[log/move] "@ + spec_link(wiki_user_url(evt_user(evt)), evt_user(evt)) + " moved "@
        + spec_link(wiki_page_url(evt_title(evt)), evt_title(evt)) + " to "@ + spec_link(
        wiki_page_url(target),
        target,
    )
}

pub open spec fn newusers_msg_of(evt: JsonNode) -> Seq<char> {
    "[log/newusers] "@ + spec_link(wiki_user_url(evt_user(evt)), evt_user(evt)) + " "@
        + evt_log_comment(evt)
}

pub open spec fn profile_msg_of(evt: JsonNode) -> Seq<char> {
    "[log/profile] "@ + spec_link(wiki_user_url(evt_user(evt)), evt_user(evt)) + " "@
        + evt_log_comment(evt)
}

pub open spec fn rights_msg_of(evt: JsonNode) -> Seq<char> {
    "[log/rights] "@ + spec_link(wiki_user_url(evt_user(evt)), evt_user(evt)) + " "@
        + evt_log_comment(evt)
}

pub open spec fn thanks_msg_of(evt: JsonNode) -> Seq<char> {
    "[log/thanks] "@ + evt_log_comment(evt)
}

pub open spec fn upload_msg_of(evt: JsonNode) -> Seq<char> {
    "[log/upload] "@ + spec_link(wiki_user_url(evt_user(evt)), evt_user(evt))
        + " uploaded file: "@ + spec_link(wiki_page_url(evt_title(evt)), evt_title(evt))
}

pub open spec fn usermerge_msg_of(evt: JsonNode) -> Seq<char> {
    "[log/usermerge] "@ + spec_link(wiki_user_url(evt_user(evt)), evt_user(evt)) + " "@
        + spec_urldecoded(encode_utf8(evt_log_comment(evt)))
}

fn format_tag_user_comment(tag: &str, evt: &JsonNode, comment: &str) -> (r: Message)
    ensures
        r.text@ == tag@ + spec_link(wiki_user_url(evt_user(*evt)), evt_user(*evt)) + " "@
            + comment@,
        r.loud,
{
    let user = evt.get_text("user");
    let mut text = tag.to_owned();
    let uurl = get_user_url(user.as_str());
    append_link(&mut text, uurl.as_str(), user.as_str());
    text.append(" ");
    text.append(comment);
    proof {
        assert(text@ =~= tag@ + spec_link(wiki_user_url(evt_user(*evt)), evt_user(*evt)) + " "@
            + comment@);
    }
    Message { text, loud: true }
}

pub fn format_log_avatar(evt: &JsonNode) -> (r: Message)
    ensures
        r.text@ == avatar_msg_of(*evt),
        r.loud,
{
    let comment = evt.get_text("comment");
    format_tag_user_comment("[log/avatar] ", evt, comment.as_str())
}

pub fn format_log_block(evt: &JsonNode) -> (r: Message)
    ensures
        r.text@ == block_msg_of(*evt),
        r.loud,
{
    let comment = evt.get_text("log_action_comment");
    format_tag_user_comment("[log/ban] ", evt, comment.as_str())
}

pub fn format_log_newusers(evt: &JsonNode) -> (r: Message)
    ensures
        r.text@ == newusers_msg_of(*evt),
        r.loud,
{
    let comment = evt.get_text("log_action_comment");
    format_tag_user_comment("[log/newusers] ", evt, comment.as_str())
}

pub fn format_log_profile(evt: &JsonNode) -> (r: Message)
    ensures
        r.text@ == profile_msg_of(*evt),
        r.loud,
{
    let comment = evt.get_text("log_action_comment");
    format_tag_user_comment("[log/profile] ", evt, comment.as_str())
}

pub fn format_log_rights(evt: &JsonNode) -> (r: Message)
    ensures
        r.text@ == rights_msg_of(*evt),
        r.loud,
{
    let comment = evt.get_text("log_action_comment");
    format_tag_user_comment("[log/rights] ", evt, comment.as_str())
}

pub fn format_log_usermerge(evt: &JsonNode) -> (r: Message)
    ensures
        r.text@ == usermerge_msg_of(*evt),
        r.loud,
{
    let comment = evt.get_text("log_action_comment");
    let decoded = urldecode(comment.as_str());
    format_tag_user_comment("[log/usermerge] ", evt, decoded.as_str())
}

pub fn format_log_delete(evt: &JsonNode) -> (r: Message)
    ensures
        r.text@ == delete_msg_of(*evt),
        r.loud,
{
    let user = evt.get_text("user");
    let page = evt.get_text("title");
    let mut text = "[log/delete] ".to_owned();
    let uurl = get_user_url(user.as_str());
    append_link(&mut text, uurl.as_str(), user.as_str());
    text.append(" deleted page: ");
    let purl = get_url(page.as_str());
    append_link(&mut text, purl.as_str(), page.as_str());
    proof {
        assert(text@ =~= delete_msg_of(*evt));
    }
    Message { text, loud: true }
}

pub fn format_log_move(evt: &JsonNode) -> (r: Message)
    ensures
        r.text@ == move_msg_of(*evt),
        r.loud,
{
    let user = evt.get_text("user");
    let page = evt.get_text("title");
    let target = match evt.get2("log_params", "target") {
        Some(node) => node.text_of(),
        None => "null".to_owned(),
    };
    let mut text = "[log/move] ".to_owned();
    let uurl = get_user_url(user.as_str());
    append_link(&mut text, uurl.as_str(), user.as_str());
    text.append(" moved ");
    let purl = get_url(page.as_str());
    append_link(&mut text, purl.as_str(), page.as_str());
    text.append(" to ");
    let turl = get_url(target.as_str());
    append_link(&mut text, turl.as_str(), target.as_str());
    proof {
        assert(text@ =~= move_msg_of(*evt));
    }
    Message { text, loud: true }
}

pub fn format_log_thanks(evt: &JsonNode) -> (r: Message)
    ensures
        r.text@ == thanks_msg_of(*evt),
        r.loud,
{
    let comment = evt.get_text("log_action_comment");
    let mut text = "[log/thanks] ".to_owned();
    text.append(comment.as_str());
    proof {
        assert(text@ =~= thanks_msg_of(*evt));
    }
    Message { text, loud: true }
}

pub fn format_log_upload(evt: &JsonNode) -> (r: Message)
    ensures
        r.text@ == upload_msg_of(*evt),
        r.loud,
{
    let user = evt.get_text("user");
    let file = evt.get_text("title");
    let mut text = "[log/upload] ".to_owned();
    let uurl = get_user_url(user.as_str());
    append_link(&mut text, uurl.as_str(), user.as_str());
    text.append(" uploaded file: ");
    let furl = get_url(file.as_str());
    append_link(&mut text, furl.as_str(), file.as_str());
    proof {
        assert(text@ =~= upload_msg_of(*evt));
    }
    Message { text, loud: true }
}

/// Which revision id an enrichment lookup was keyed on.
#[derive(Clone, Copy, PartialEq, Eq, Structural, Debug)]
pub enum RevLookupKind {
    Approve,
    Unapprove,
    Patrol,
}

/// What a wiki event asks of its caller: nothing, one message, or an
/// enrichment lookup followed by a second call.
pub enum WikiAction {
    Ignore,
    Emit(Message),
    NeedRevision { title: String, rev_id: u32, kind: RevLookupKind },
}

/// The revision context as a triple of character sequences.
pub open spec fn rev_view(rev: Option<RevInfo>) -> Option<(Seq<char>, Seq<char>, Seq<char>)> {
    match rev {
        Some(info) => Some((info.user@, info.comment@, info.parent_id@)),
        None => None,
    }
}

/// The "by author (comment)" clause; empty when enrichment failed.
pub open spec fn rev_byline(rev: Option<(Seq<char>, Seq<char>, Seq<char>)>) -> Seq<char> {
    match rev {
        Some(t) => " by "@ + spec_link(wiki_user_url(t.0), t.0) + " (\""@ + t.1 + "\")"@,
        None => Seq::<char>::empty(),
    }
}

/// The diff link of an approved revision; its old side is the enriched
/// parent id, or the event's own old revision id as fallback anchor.
pub open spec fn approve_diff_url(page: Seq<char>, revid: u32, parent: Seq<char>) -> Seq<char> {
    "https://psychonautwiki.org/w/index.php?title="@ + enc_title(page) + "&type=revision&diff="@
        + dec_str(revid as nat) + "&oldid="@ + parent
}

pub open spec fn approval_approve_msg(
    user: Seq<char>,
    page: Seq<char>,
    revid: u32,
    oldrevid: u32,
    rev: Option<(Seq<char>, Seq<char>, Seq<char>)>,
) -> Seq<char> {
    let parent = match rev {
        Some(t) => t.2,
        None => dec_str(oldrevid as nat),
    };
    "[log/approval] "@ + spec_link(wiki_user_url(user), user) + " approved "@ + spec_link(
        approve_diff_url(page, revid, parent),
        "revision "@ + dec_str(revid as nat),
    ) + rev_byline(rev) + " of "@ + spec_link(wiki_page_url(page), page)
}

/// The link to a previously approved revision.
pub open spec fn unapprove_url(page: Seq<char>, oldrevid: u32) -> Seq<char> {
    "https://psychonautwiki.org/w/index.php?title="@ + enc_title(page) + "&type=revision&oldid="@
        + dec_str(oldrevid as nat)
}

pub open spec fn approval_unapprove_msg(
    user: Seq<char>,
    page: Seq<char>,
    oldrevid: u32,
    rev: Option<(Seq<char>, Seq<char>, Seq<char>)>,
) -> Seq<char> {
    "[log/approval] "@ + spec_link(wiki_user_url(user), user) + " revoked the approval of "@
        + spec_link(wiki_page_url(page), page) + " (was "@ + spec_link(
        unapprove_url(page, oldrevid),
        "revision "@ + dec_str(oldrevid as nat),
    ) + rev_byline(rev) + ")"@
}

pub open spec fn patrol_msg(
    user: Seq<char>,
    page: Seq<char>,
    curid: u32,
    previd: u32,
    rev: Option<(Seq<char>, Seq<char>, Seq<char>)>,
) -> Seq<char> {
    "[log/patrol] "@ + spec_link(wiki_user_url(user), user) + " marked "@ + spec_link(
        edit_diff_url(page, curid, previd),
        "revision "@ + dec_str(curid as nat),
    ) + rev_byline(rev) + " of "@ + spec_link(wiki_page_url(page), page) + " patrolled"@
}

/// What each enriched formatter needs of the event.
pub open spec fn resume_wf(evt: JsonNode, kind: RevLookupKind) -> bool {
    match kind {
        RevLookupKind::Approve => lp_u32(evt, "rev_id"@) is Some && lp_u32(evt, "old_rev_id"@)
            is Some,
        RevLookupKind::Unapprove => lp_u32(evt, "old_rev_id"@) is Some,
        RevLookupKind::Patrol => lp_u32(evt, "curid"@) is Some && lp_u32(evt, "previd"@) is Some,
    }
}

/// The message an enriched formatter renders, given the lookup's outcome.
pub open spec fn resume_msg_of(
    evt: JsonNode,
    kind: RevLookupKind,
    rev: Option<(Seq<char>, Seq<char>, Seq<char>)>,
) -> Seq<char> {
    match kind {
        RevLookupKind::Approve => approval_approve_msg(
            evt_user(evt),
            evt_title(evt),
            lp_u32(evt, "rev_id"@).unwrap(),
            lp_u32(evt, "old_rev_id"@).unwrap(),
            rev,
        ),
        RevLookupKind::Unapprove => approval_unapprove_msg(
            evt_user(evt),
            evt_title(evt),
            lp_u32(evt, "old_rev_id"@).unwrap(),
            rev,
        ),
        RevLookupKind::Patrol => patrol_msg(
            evt_user(evt),
            evt_title(evt),
            lp_u32(evt, "curid"@).unwrap(),
            lp_u32(evt, "previd"@).unwrap(),
            rev,
        ),
    }
}

fn append_byline(out: &mut String, rev: &Option<RevInfo>)
    ensures
        final(out)@ == old(out)@ + rev_byline(rev_view(*rev)),
{
    match rev {
        Some(info) => {
            out.append(" by ");
            let uurl = get_user_url(info.user.as_str());
            append_link(out, uurl.as_str(), info.user.as_str());
            out.append(" (\"");
            out.append(info.comment.as_str());
            out.append("\")");
            proof {
                assert(final(out)@ =~= old(out)@ + rev_byline(rev_view(*rev)));
            }
        },
        None => {},
    }
}

/// Renders an approval, enriched when the lookup succeeded.
pub fn format_log_approval_approve(evt: &JsonNode, rev: &Option<RevInfo>) -> (r: Message)
    requires
        resume_wf(*evt, RevLookupKind::Approve),
    ensures
        r.text@ == resume_msg_of(*evt, RevLookupKind::Approve, rev_view(*rev)),
        r.loud,
{
    let evt_revid = evt.get2_u32("log_params", "rev_id").unwrap();
    let evt_oldrevid = evt.get2_u32("log_params", "old_rev_id").unwrap();
    let user = evt.get_text("user");
    let page = evt.get_text("title");

    let parent: String = match rev {
        Some(info) => info.parent_id.clone(),
        None => u64_dec_string(evt_oldrevid as u64),
    };
    let mut url = "https://psychonautwiki.org/w/index.php?title=".to_owned();
    let enc = encode_title(page.as_str());
    url.append(enc.as_str());
    url.append("&type=revision&diff=");
    append_u64_dec(&mut url, evt_revid as u64);
    url.append("&oldid=");
    url.append(parent.as_str());
    let mut label = "revision ".to_owned();
    append_u64_dec(&mut label, evt_revid as u64);

    let mut text = "[log/approval] ".to_owned();
    let uurl = get_user_url(user.as_str());
    append_link(&mut text, uurl.as_str(), user.as_str());
    text.append(" approved ");
    append_link(&mut text, url.as_str(), label.as_str());
    append_byline(&mut text, rev);
    text.append(" of ");
    let purl = get_url(page.as_str());
    append_link(&mut text, purl.as_str(), page.as_str());
    proof {
        assert(url@ =~= approve_diff_url(
            page@,
            evt_revid,
            match rev_view(*rev) {
                Some(t) => t.2,
                None => dec_str(evt_oldrevid as nat),
            },
        ));
        assert(text@ =~= resume_msg_of(*evt, RevLookupKind::Approve, rev_view(*rev)));
    }
    Message { text, loud: true }
}

/// Renders a revoked approval; the old revision id only anchors the link to
/// the previously approved revision.
pub fn format_log_approval_unapprove(evt: &JsonNode, rev: &Option<RevInfo>) -> (r: Message)
    requires
        resume_wf(*evt, RevLookupKind::Unapprove),
    ensures
        r.text@ == resume_msg_of(*evt, RevLookupKind::Unapprove, rev_view(*rev)),
        r.loud,
{
    let evt_oldrevid = evt.get2_u32("log_params", "old_rev_id").unwrap();
    let user = evt.get_text("user");
    let page = evt.get_text("title");

    let mut url = "https://psychonautwiki.org/w/index.php?title=".to_owned();
    let enc = encode_title(page.as_str());
    url.append(enc.as_str());
    url.append("&type=revision&oldid=");
    append_u64_dec(&mut url, evt_oldrevid as u64);
    let mut label = "revision ".to_owned();
    append_u64_dec(&mut label, evt_oldrevid as u64);

    let mut text = "[log/approval] ".to_owned();
    let uurl = get_user_url(user.as_str());
    append_link(&mut text, uurl.as_str(), user.as_str());
    text.append(" revoked the approval of ");
    let purl = get_url(page.as_str());
    append_link(&mut text, purl.as_str(), page.as_str());
    text.append(" (was ");
    append_link(&mut text, url.as_str(), label.as_str());
    append_byline(&mut text, rev);
    text.append(")");
    proof {
        assert(url@ =~= unapprove_url(page@, evt_oldrevid));
        assert(text@ =~= resume_msg_of(*evt, RevLookupKind::Unapprove, rev_view(*rev)));
    }
    Message { text, loud: true }
}

/// Renders a manual patrol, enriched when the lookup succeeded.
pub fn format_log_patrol(evt: &JsonNode, rev: &Option<RevInfo>) -> (r: Message)
    requires
        resume_wf(*evt, RevLookupKind::Patrol),
    ensures
        r.text@ == resume_msg_of(*evt, RevLookupKind::Patrol, rev_view(*rev)),
        r.loud,
{
    let evt_curid = evt.get2_u32("log_params", "curid").unwrap();
    let evt_previd = evt.get2_u32("log_params", "previd").unwrap();
    let user = evt.get_text("user");
    let page = evt.get_text("title");

    let mut url = "https://psychonautwiki.org/w/index.php?title=".to_owned();
    let enc = encode_title(page.as_str());
    url.append(enc.as_str());
    url.append("&type=revision&diff=");
    append_u64_dec(&mut url, evt_curid as u64);
    url.append("&oldid=");
    append_u64_dec(&mut url, evt_previd as u64);
    let mut label = "revision ".to_owned();
    append_u64_dec(&mut label, evt_curid as u64);

    let mut text = "[log/patrol] ".to_owned();
    let uurl = get_user_url(user.as_str());
    append_link(&mut text, uurl.as_str(), user.as_str());
    text.append(" marked ");
    append_link(&mut text, url.as_str(), label.as_str());
    append_byline(&mut text, rev);
    text.append(" of ");
    let purl = get_url(page.as_str());
    append_link(&mut text, purl.as_str(), page.as_str());
    text.append(" patrolled");
    proof {
        assert(url@ =~= edit_diff_url(page@, evt_curid, evt_previd));
        assert(text@ =~= resume_msg_of(*evt, RevLookupKind::Patrol, rev_view(*rev)));
    }
    Message { text, loud: true }
}

/// Renders the second half of an enriched event, once the lookup's outcome
/// is in hand.
pub fn wiki_resume(evt: &JsonNode, kind: RevLookupKind, rev: &Option<RevInfo>) -> (r: Message)
    requires
        resume_wf(*evt, kind),
    ensures
        r.text@ == resume_msg_of(*evt, kind, rev_view(*rev)),
        r.loud,
{
    match kind {
        RevLookupKind::Approve => format_log_approval_approve(evt, rev),
        RevLookupKind::Unapprove => format_log_approval_unapprove(evt, rev),
        RevLookupKind::Patrol => format_log_patrol(evt, rev),
    }
}

/// The double-encode corrections applied to a fallback dump.
pub open spec fn corrected_dump(evt: JsonNode) -> Seq<char> {
    replaced(replaced(replaced(spec_dump(evt), '+', "%2b"@), '&', "%26"@), '?', "%3f"@)
}

/// What the approval dispatch owes for each log action.
pub open spec fn spec_wiki_approval_classified(evt: JsonNode, r: WikiAction) -> bool {
    let la = spec_text_of(spec_get(evt, "log_action"@));
    if la == "approve"@ {
        r matches WikiAction::NeedRevision { title, rev_id, kind } && title@ == evt_title(evt)
            && rev_id == lp_u32(evt, "rev_id"@).unwrap() && kind == RevLookupKind::Approve
    } else if la == "unapprove"@ {
        r matches WikiAction::NeedRevision { title, rev_id, kind } && title@ == evt_title(evt)
            && rev_id == lp_u32(evt, "old_rev_id"@).unwrap() && kind == RevLookupKind::Unapprove
    } else if la == "null"@ {
        r is Ignore
    } else {
        r matches WikiAction::Emit(m) && m.text@ == "[log/approval/not_implemented] "@
            + corrected_dump(evt) && m.loud
    }
}

/// What the patrol dispatch owes: fully automatic patrols are suppressed,
/// everything else asks for enrichment keyed on the current revision.
pub open spec fn spec_wiki_patrol_classified(evt: JsonNode, r: WikiAction) -> bool {
    let auto = spec_get(spec_get(evt, "log_params"@), "auto"@);
    if !(auto is Num) {
        r is Ignore
    } else if spec_as_u32(auto).unwrap() == 1 {
        r is Ignore
    } else {
        r matches WikiAction::NeedRevision { title, rev_id, kind } && title@ == evt_title(evt)
            && rev_id == lp_u32(evt, "curid"@).unwrap() && kind == RevLookupKind::Patrol
    }
}

/// What the log dispatch owes for each log type.
pub open spec fn spec_wiki_log_classified(evt: JsonNode, r: WikiAction) -> bool {
    let lt = spec_text_of(spec_get(evt, "log_type"@));
    if lt == "approval"@ {
        spec_wiki_approval_classified(evt, r)
    } else if lt == "avatar"@ {
        r matches WikiAction::Emit(m) && m.text@ == avatar_msg_of(evt) && m.loud
    } else if lt == "block"@ {
        r matches WikiAction::Emit(m) && m.text@ == block_msg_of(evt) && m.loud
    } else if lt == "delete"@ {
        r matches WikiAction::Emit(m) && m.text@ == delete_msg_of(evt) && m.loud
    } else if lt == "move"@ {
        r matches WikiAction::Emit(m) && m.text@ == move_msg_of(evt) && m.loud
    } else if lt == "newusers"@ {
        r matches WikiAction::Emit(m) && m.text@ == newusers_msg_of(evt) && m.loud
    } else if lt == "patrol"@ {
        spec_wiki_patrol_classified(evt, r)
    } else if lt == "profile"@ {
        r matches WikiAction::Emit(m) && m.text@ == profile_msg_of(evt) && m.loud
    } else if lt == "rights"@ {
        r matches WikiAction::Emit(m) && m.text@ == rights_msg_of(evt) && m.loud
    } else if lt == "thanks"@ {
        r matches WikiAction::Emit(m) && m.text@ == thanks_msg_of(evt) && m.loud
    } else if lt == "upload"@ {
        r matches WikiAction::Emit(m) && m.text@ == upload_msg_of(evt) && m.loud
    } else if lt == "usermerge"@ {
        r matches WikiAction::Emit(m) && m.text@ == usermerge_msg_of(evt) && m.loud
    } else if lt == "null"@ {
        r is Ignore
    } else {
        r matches WikiAction::Emit(m) && m.text@ == "[log_not_implemented] "@ + corrected_dump(
            evt,
        ) && m.loud
    }
}

/// What classification owes for every event: the dispatch on the type tag,
/// the "null" sentinel dropped, and the explicit fallback for everything
/// else, so that no event is silently lost.
pub open spec fn spec_wiki_classified(evt: JsonNode, r: WikiAction) -> bool {
    let ty = spec_text_of(spec_get(evt, "type"@));
    if ty == "edit"@ {
        r matches WikiAction::Emit(m) && m.text@ == edit_msg_of(evt) && m.loud
    } else if ty == "log"@ {
        spec_wiki_log_classified(evt, r)
    } else if ty == "new"@ {
        r matches WikiAction::Emit(m) && m.text@ == new_msg_of(evt) && m.loud
    } else if ty == "null"@ {
        r is Ignore
    } else {
        r matches WikiAction::Emit(m) && m.text@ == "[not_implemented] "@ + spec_dump(evt)
            && m.loud
    }
}

/// The numeric fields an approval dispatch reads without further checks.
pub open spec fn wiki_approval_wf(evt: JsonNode) -> bool {
    let la = spec_text_of(spec_get(evt, "log_action"@));
    if la == "approve"@ {
        lp_u32(evt, "rev_id"@) is Some && lp_u32(evt, "old_rev_id"@) is Some
    } else if la == "unapprove"@ {
        lp_u32(evt, "old_rev_id"@) is Some
    } else {
        true
    }
}

/// The numeric fields a patrol dispatch reads without further checks.
pub open spec fn wiki_patrol_wf(evt: JsonNode) -> bool {
    let auto = spec_get(spec_get(evt, "log_params"@), "auto"@);
    &&& (auto is Num ==> spec_as_u32(auto) is Some)
    &&& ((auto is Num && spec_as_u32(auto).unwrap() != 1) ==> (lp_u32(evt, "curid"@) is Some
        && lp_u32(evt, "previd"@) is Some))
}

/// The numeric fields each dispatch path reads without further checks.
pub open spec fn wiki_log_wf(evt: JsonNode) -> bool {
    let lt = spec_text_of(spec_get(evt, "log_type"@));
    if lt == "approval"@ {
        wiki_approval_wf(evt)
    } else if lt == "patrol"@ {
        wiki_patrol_wf(evt)
    } else {
        true
    }
}

pub open spec fn wiki_wf(evt: JsonNode) -> bool {
    let ty = spec_text_of(spec_get(evt, "type"@));
    if ty == "edit"@ {
        wiki_edit_wf(evt)
    } else if ty == "new"@ {
        wiki_new_wf(evt)
    } else if ty == "log"@ {
        wiki_log_wf(evt)
    } else {
        true
    }
}

fn wiki_log_well_formed(evt: &JsonNode) -> (r: bool)
    ensures
        r == wiki_log_wf(*evt),
{
    proof {
        reveal_strlit("approval");
        reveal_strlit("patrol");
    }
    let lt = evt.get_text("log_type");
    if str_eq(lt.as_str(), "approval") {
        proof {
            reveal_strlit("approve");
            reveal_strlit("unapprove");
        }
        let la = evt.get_text("log_action");
        if str_eq(la.as_str(), "approve") {
            evt.get2_u32("log_params", "rev_id").is_some() && evt.get2_u32(
                "log_params",
                "old_rev_id",
            ).is_some()
        } else if str_eq(la.as_str(), "unapprove") {
            evt.get2_u32("log_params", "old_rev_id").is_some()
        } else {
            true
        }
    } else if str_eq(lt.as_str(), "patrol") {
        let auto_is_num = match evt.get2("log_params", "auto") {
            Some(node) => node.is_number(),
            None => false,
        };
        if auto_is_num {
            match evt.get2_u32("log_params", "auto") {
                Some(v) => {
                    if v != 1 {
                        evt.get2_u32("log_params", "curid").is_some() && evt.get2_u32(
                            "log_params",
                            "previd",
                        ).is_some()
                    } else {
                        true
                    }
                },
                None => false,
            }
        } else {
            true
        }
    } else {
        true
    }
}

/// Tests up front every field the classifier would read without further
/// checks, so that a caller can refuse a malformed event instead of handing
/// it over.
pub fn wiki_well_formed(evt: &JsonNode) -> (r: bool)
    ensures
        r == wiki_wf(*evt),
{
    proof {
        reveal_strlit("edit");
        reveal_strlit("new");
        reveal_strlit("log");
        assert("log"@ != "new"@) by {
            assert("log"@[0] == 'l');
            assert("new"@[0] == 'n');
        }
    }
    let ty = evt.get_text("type");
    if str_eq(ty.as_str(), "edit") {
        evt.get2_u32("revision", "new").is_some() && evt.get2_u32("revision", "old").is_some()
            && evt.get_bool("minor").is_some() && evt.get_bool("patrolled").is_some()
            && evt.get_bool("bot").is_some()
    } else if str_eq(ty.as_str(), "new") {
        evt.get2_u32("revision", "new").is_some() && evt.get_bool("minor").is_some()
            && evt.get_bool("patrolled").is_some() && evt.get_bool("bot").is_some()
    } else if str_eq(ty.as_str(), "log") {
        wiki_log_well_formed(evt)
    } else {
        true
    }
}

/// Tests up front every field an enriched formatter would read, so that a
/// caller can refuse a malformed event instead of handing it over.
pub fn wiki_resume_ready(evt: &JsonNode, kind: RevLookupKind) -> (r: bool)
    ensures
        r == resume_wf(*evt, kind),
{
    match kind {
        RevLookupKind::Approve => {
            evt.get2_u32("log_params", "rev_id").is_some() && evt.get2_u32(
                "log_params",
                "old_rev_id",
            ).is_some()
        },
        RevLookupKind::Unapprove => evt.get2_u32("log_params", "old_rev_id").is_some(),
        RevLookupKind::Patrol => {
            evt.get2_u32("log_params", "curid").is_some() && evt.get2_u32(
                "log_params",
                "previd",
            ).is_some()
        },
    }
}

fn wiki_classify_approval(evt: &JsonNode) -> (r: WikiAction)
    requires
        wiki_approval_wf(*evt),
    ensures
        spec_wiki_approval_classified(*evt, r),
{
    proof {
        reveal_strlit("approve");
        reveal_strlit("unapprove");
        reveal_strlit("null");
    }
    let la = evt.get_text("log_action");
    if str_eq(la.as_str(), "approve") {
        let rev_id = evt.get2_u32("log_params", "rev_id").unwrap();
        WikiAction::NeedRevision {
            title: evt.get_text("title"),
            rev_id,
            kind: RevLookupKind::Approve,
        }
    } else if str_eq(la.as_str(), "unapprove") {
        let rev_id = evt.get2_u32("log_params", "old_rev_id").unwrap();
        WikiAction::NeedRevision {
            title: evt.get_text("title"),
            rev_id,
            kind: RevLookupKind::Unapprove,
        }
    } else if str_eq(la.as_str(), "null") {
        WikiAction::Ignore
    } else {
        let mut text = "[log/approval/not_implemented] ".to_owned();
        let dumped = evt.dump();
        let corrected = plusexclquest_to_url(dumped.as_str());
        text.append(corrected.as_str());
        proof {
            assert(text@ =~= "[log/approval/not_implemented] "@ + corrected_dump(*evt));
        }
        WikiAction::Emit(Message { text, loud: true })
    }
}

fn wiki_classify_patrol(evt: &JsonNode) -> (r: WikiAction)
    requires
        wiki_patrol_wf(*evt),
    ensures
        spec_wiki_patrol_classified(*evt, r),
{
    let is_num = match evt.get2("log_params", "auto") {
        Some(node) => node.is_number(),
        None => false,
    };
    if !is_num {
        return WikiAction::Ignore;
    }
    let auto = evt.get2_u32("log_params", "auto").unwrap();
    if auto == 1 {
        return WikiAction::Ignore;
    }
    let rev_id = evt.get2_u32("log_params", "curid").unwrap();
    WikiAction::NeedRevision { title: evt.get_text("title"), rev_id, kind: RevLookupKind::Patrol }
}

/// Dispatches a log event on its log type.
pub fn wiki_classify_log(evt: &JsonNode) -> (r: WikiAction)
    requires
        wiki_log_wf(*evt),
    ensures
        spec_wiki_log_classified(*evt, r),
{
    proof {
        reveal_strlit("approval");
        reveal_strlit("avatar");
        reveal_strlit("block");
        reveal_strlit("delete");
        reveal_strlit("move");
        reveal_strlit("newusers");
        reveal_strlit("patrol");
        reveal_strlit("profile");
        reveal_strlit("rights");
        reveal_strlit("thanks");
        reveal_strlit("upload");
        reveal_strlit("usermerge");
        reveal_strlit("null");
        assert("delete"@ != "avatar"@) by {
            assert("delete"@[0] == 'd');
            assert("avatar"@[0] == 'a');
        }
        assert("patrol"@ != "avatar"@) by {
            assert("patrol"@[0] == 'p');
            assert("avatar"@[0] == 'a');
        }
        assert("patrol"@ != "delete"@) by {
            assert("patrol"@[0] == 'p');
            assert("delete"@[0] == 'd');
        }
        assert("newusers"@ != "approval"@) by {
            assert("newusers"@[0] == 'n');
            assert("approval"@[0] == 'a');
        }
        assert("rights"@ != "avatar"@) by {
            assert("rights"@[0] == 'r');
            assert("avatar"@[0] == 'a');
        }
        assert("rights"@ != "delete"@) by {
            assert("rights"@[0] == 'r');
            assert("delete"@[0] == 'd');
        }
        assert("rights"@ != "patrol"@) by {
            assert("rights"@[0] == 'r');
            assert("patrol"@[0] == 'p');
        }
        assert("thanks"@ != "avatar"@) by {
            assert("thanks"@[0] == 't');
            assert("avatar"@[0] == 'a');
        }
        assert("thanks"@ != "delete"@) by {
            assert("thanks"@[0] == 't');
            assert("delete"@[0] == 'd');
        }
        assert("thanks"@ != "patrol"@) by {
            assert("thanks"@[0] == 't');
            assert("patrol"@[0] == 'p');
        }
        assert("thanks"@ != "rights"@) by {
            assert("thanks"@[0] == 't');
            assert("rights"@[0] == 'r');
        }
        assert("upload"@ != "avatar"@) by {
            assert("upload"@[0] == 'u');
            assert("avatar"@[0] == 'a');
        }
        assert("upload"@ != "delete"@) by {
            assert("upload"@[0] == 'u');
            assert("delete"@[0] == 'd');
        }
        assert("upload"@ != "patrol"@) by {
            assert("upload"@[0] == 'u');
            assert("patrol"@[0] == 'p');
        }
        assert("upload"@ != "rights"@) by {
            assert("upload"@[0] == 'u');
            assert("rights"@[0] == 'r');
        }
        assert("upload"@ != "thanks"@) by {
            assert("upload"@[0] == 'u');
            assert("thanks"@[0] == 't');
        }
        assert("null"@ != "move"@) by {
            assert("null"@[0] == 'n');
            assert("move"@[0] == 'm');
        }
    }
    let lt = evt.get_text("log_type");
    if str_eq(lt.as_str(), "approval") {
        wiki_classify_approval(evt)
    } else if str_eq(lt.as_str(), "avatar") {
        WikiAction::Emit(format_log_avatar(evt))
    } else if str_eq(lt.as_str(), "block") {
        WikiAction::Emit(format_log_block(evt))
    } else if str_eq(lt.as_str(), "delete") {
        WikiAction::Emit(format_log_delete(evt))
    } else if str_eq(lt.as_str(), "move") {
        WikiAction::Emit(format_log_move(evt))
    } else if str_eq(lt.as_str(), "newusers") {
        WikiAction::Emit(format_log_newusers(evt))
    } else if str_eq(lt.as_str(), "patrol") {
        wiki_classify_patrol(evt)
    } else if str_eq(lt.as_str(), "profile") {
        WikiAction::Emit(format_log_profile(evt))
    } else if str_eq(lt.as_str(), "rights") {
        WikiAction::Emit(format_log_rights(evt))
    } else if str_eq(lt.as_str(), "thanks") {
        WikiAction::Emit(format_log_thanks(evt))
    } else if str_eq(lt.as_str(), "upload") {
        WikiAction::Emit(format_log_upload(evt))
    } else if str_eq(lt.as_str(), "usermerge") {
        WikiAction::Emit(format_log_usermerge(evt))
    } else if str_eq(lt.as_str(), "null") {
        WikiAction::Ignore
    } else {
        let mut text = "[log_not_implemented] ".to_owned();
        let dumped = evt.dump();
        let corrected = plusexclquest_to_url(dumped.as_str());
        text.append(corrected.as_str());
        proof {
            assert(text@ =~= "[log_not_implemented] "@ + corrected_dump(*evt));
        }
        WikiAction::Emit(Message { text, loud: true })
    }
}

/// Classifies one wiki event: zero or one message, or an enrichment request.
pub fn wiki_classify(evt: &JsonNode) -> (r: WikiAction)
    requires
        wiki_wf(*evt),
    ensures
        spec_wiki_classified(*evt, r),
{
    proof {
        reveal_strlit("edit");
        reveal_strlit("log");
        reveal_strlit("new");
        reveal_strlit("null");
        assert("log"@ != "new"@) by {
            assert("log"@[0] == 'l');
            assert("new"@[0] == 'n');
        }
    }
    let ty = evt.get_text("type");
    if str_eq(ty.as_str(), "edit") {
        WikiAction::Emit(format_evt_edit(evt))
    } else if str_eq(ty.as_str(), "log") {
        wiki_classify_log(evt)
    } else if str_eq(ty.as_str(), "new") {
        WikiAction::Emit(format_evt_new(evt))
    } else if str_eq(ty.as_str(), "null") {
        WikiAction::Ignore
    } else {
        let mut text = "[not_implemented] ".to_owned();
        let dumped = evt.dump();
        text.append(dumped.as_str());
        proof {
            assert(text@ =~= "[not_implemented] "@ + spec_dump(*evt));
        }
        WikiAction::Emit(Message { text, loud: true })
    }
}

} // verus!
