//! Properties of the message templates: for well-formed events of each kind
//! the rendered text carries the actor's identity, the target's identity,
//! and the kind's fixed action phrase.
use vstd::prelude::*;

use crate::github::{
    GhCommit, GhOrganization, GhRepo, GhTeam, GhUser, fork_msg, issues_msg, member_msg,
    member_verb, membership_msg, push_msg, pull_request_msg, repository_msg, watch_msg,
    GhPullRequest,
};
use crate::jira::{JiraEvent, JiraEventType, jira_msg, spec_verb};
use crate::paypal::{PayPalIpn, paypal_msg};
use crate::text::{
    contains_seq, lemma_contains_concat_left, lemma_contains_concat_mid,
    lemma_contains_concat_right, spec_link,
};
use crate::wiki::{
    approval_approve_msg, approval_unapprove_msg, delete_msg_of, edit_msg_of, evt_title, evt_user,
    move_msg_of, new_msg_of, patrol_msg, spec_flags_prefix, upload_msg_of, wiki_edit_msg,
    wiki_new_msg, wiki_page_url, wiki_user_url, edit_diff_url, new_page_url,
};
use crate::json_tree::JsonNode;
use crate::text::spec_explain_comment;

verus! {

/// An edit message names its actor, its page, and the action "edited".
#[verifier::rlimit(100)]
#[verifier::spinoff_prover]
proof fn shape_edit(
    f: Seq<char>,
    u1: Seq<char>,
    user: Seq<char>,
    u2: Seq<char>,
    page: Seq<char>,
    ex: Seq<char>,
)
    ensures
        contains_seq(f + spec_link(u1, user) + " edited "@ + spec_link(u2, page) + " "@ + ex, user),
        contains_seq(f + spec_link(u1, user) + " edited "@ + spec_link(u2, page) + " "@ + ex, page),
        contains_seq(
            f + spec_link(u1, user) + " edited "@ + spec_link(u2, page) + " "@ + ex,
            " edited "@,
        ),
{
    let t = f + spec_link(u1, user) + " edited "@ + spec_link(u2, page) + " "@ + ex;
    assert(t =~= (f + "<a href=\""@ + u1 + "\">"@) + user + ("</a>"@ + " edited "@ + spec_link(
        u2,
        page,
    ) + " "@ + ex));
    lemma_contains_concat_mid(
        f + "<a href=\""@ + u1 + "\">"@,
        user,
        "</a>"@ + " edited "@ + spec_link(u2, page) + " "@ + ex,
    );
    assert(t =~= (f + spec_link(u1, user)) + " edited "@ + (spec_link(u2, page) + " "@ + ex));
    lemma_contains_concat_mid(
        f + spec_link(u1, user),
        " edited "@,
        spec_link(u2, page) + " "@ + ex,
    );
    assert(t =~= (f + spec_link(u1, user) + " edited "@ + "<a href=\""@ + u2 + "\">"@) + page + (
    "</a>"@ + " "@ + ex));
    lemma_contains_concat_mid(
        f + spec_link(u1, user) + " edited "@ + "<a href=\""@ + u2 + "\">"@,
        page,
        "</a>"@ + " "@ + ex,
    );
}

/// An edit message names its actor, its page, and the action phrase.
pub proof fn lemma_edit_msg_mentions(
    user: Seq<char>,
    page: Seq<char>,
    comment: Seq<char>,
    cur: u32,
    prev: u32,
    minor: bool,
    patrolled: bool,
    bot: bool,
)
    ensures
        contains_seq(wiki_edit_msg(user, page, comment, cur, prev, minor, patrolled, bot), user),
        contains_seq(wiki_edit_msg(user, page, comment, cur, prev, minor, patrolled, bot), page),
        contains_seq(
            wiki_edit_msg(user, page, comment, cur, prev, minor, patrolled, bot),
            " edited "@,
        ),
{
    shape_edit(
        spec_flags_prefix(minor, patrolled, bot),
        wiki_user_url(user),
        user,
        edit_diff_url(page, cur, prev),
        page,
        spec_explain_comment(comment),
    );
}

/// A new-page message names its actor, its page, and the action phrase.
#[verifier::rlimit(100)]
#[verifier::spinoff_prover]
pub proof fn lemma_new_msg_mentions(
    user: Seq<char>,
    page: Seq<char>,
    comment: Seq<char>,
    cur: u32,
    minor: bool,
    patrolled: bool,
    bot: bool,
)
    ensures
        contains_seq(wiki_new_msg(user, page, comment, cur, minor, patrolled, bot), user),
        contains_seq(wiki_new_msg(user, page, comment, cur, minor, patrolled, bot), page),
        contains_seq(
            wiki_new_msg(user, page, comment, cur, minor, patrolled, bot),
            " created page "@,
        ),
{
    let t = wiki_new_msg(user, page, comment, cur, minor, patrolled, bot);
    let head = "[new] "@ + spec_flags_prefix(minor, patrolled, bot);
    let tail = spec_link(new_page_url(page, cur), page) + " "@ + spec_explain_comment(comment);
    assert(t =~= (head + "<a href=\""@ + wiki_user_url(user) + "\">"@) + user + ("</a>"@
        + " created page "@ + tail));
    lemma_contains_concat_mid(
        head + "<a href=\""@ + wiki_user_url(user) + "\">"@,
        user,
        "</a>"@ + " created page "@ + tail,
    );
    assert(t =~= (head + spec_link(wiki_user_url(user), user)) + " created page "@ + tail);
    lemma_contains_concat_mid(
        head + spec_link(wiki_user_url(user), user),
        " created page "@,
        tail,
    );
    assert(t =~= (head + spec_link(wiki_user_url(user), user) + " created page "@ + "<a href=\""@
        + new_page_url(page, cur) + "\">"@) + page + ("</a>"@ + " "@ + spec_explain_comment(
        comment,
    )));
    lemma_contains_concat_mid(
        head + spec_link(wiki_user_url(user), user) + " created page "@ + "<a href=\""@
            + new_page_url(page, cur) + "\">"@,
        page,
        "</a>"@ + " "@ + spec_explain_comment(comment),
    );
}

/// A deletion message names its actor, its page, and the action phrase.
#[verifier::rlimit(100)]
#[verifier::spinoff_prover]
pub proof fn lemma_delete_msg_mentions(evt: JsonNode)
    ensures
        contains_seq(delete_msg_of(evt), evt_user(evt)),
        contains_seq(delete_msg_of(evt), evt_title(evt)),
        contains_seq(delete_msg_of(evt), " deleted page: "@),
{
    let t = delete_msg_of(evt);
    let user = evt_user(evt);
    let page = evt_title(evt);
    assert(t =~= ("[log/delete] "@ + "<a href=\""@ + wiki_user_url(user) + "\">"@) + user + (
    "</a>"@ + " deleted page: "@ + spec_link(wiki_page_url(page), page)));
    lemma_contains_concat_mid(
        "[log/delete] "@ + "<a href=\""@ + wiki_user_url(user) + "\">"@,
        user,
        "</a>"@ + " deleted page: "@ + spec_link(wiki_page_url(page), page),
    );
    assert(t =~= ("[log/delete] "@ + spec_link(wiki_user_url(user), user)) + " deleted page: "@
        + spec_link(wiki_page_url(page), page));
    lemma_contains_concat_mid(
        "[log/delete] "@ + spec_link(wiki_user_url(user), user),
        " deleted page: "@,
        spec_link(wiki_page_url(page), page),
    );
    assert(t =~= ("[log/delete] "@ + spec_link(wiki_user_url(user), user) + " deleted page: "@
        + "<a href=\""@ + wiki_page_url(page) + "\">"@) + page + "</a>"@);
    lemma_contains_concat_mid(
        "[log/delete] "@ + spec_link(wiki_user_url(user), user) + " deleted page: "@
            + "<a href=\""@ + wiki_page_url(page) + "\">"@,
        page,
        "</a>"@,
    );
}

/// A move message names its actor, both pages, and the action phrase.
#[verifier::rlimit(100)]
#[verifier::spinoff_prover]
pub proof fn lemma_move_msg_mentions(evt: JsonNode)
    ensures
        contains_seq(move_msg_of(evt), evt_user(evt)),
        contains_seq(move_msg_of(evt), evt_title(evt)),
        contains_seq(move_msg_of(evt), " moved "@),
{
    let t = move_msg_of(evt);
    let user = evt_user(evt);
    let page = evt_title(evt);
    let target = crate::json_tree::spec_text_of(
        crate::json_tree::spec_get(crate::json_tree::spec_get(evt, "log_params"@), "target"@),
    );
    let tail = spec_link(wiki_page_url(page), page) + " to "@ + spec_link(
        wiki_page_url(target),
        target,
    );
    assert(t =~= ("[log/move] "@ + "<a href=\""@ + wiki_user_url(user) + "\">"@) + user + ("</a>"@
        + " moved "@ + tail));
    lemma_contains_concat_mid(
        "[log/move] "@ + "<a href=\""@ + wiki_user_url(user) + "\">"@,
        user,
        "</a>"@ + " moved "@ + tail,
    );
    assert(t =~= ("[log/move] "@ + spec_link(wiki_user_url(user), user)) + " moved "@ + tail);
    lemma_contains_concat_mid(
        "[log/move] "@ + spec_link(wiki_user_url(user), user),
        " moved "@,
        tail,
    );
    assert(t =~= ("[log/move] "@ + spec_link(wiki_user_url(user), user) + " moved "@
        + "<a href=\""@ + wiki_page_url(page) + "\">"@) + page + ("</a>"@ + " to "@ + spec_link(
        wiki_page_url(target),
        target,
    )));
    lemma_contains_concat_mid(
        "[log/move] "@ + spec_link(wiki_user_url(user), user) + " moved "@ + "<a href=\""@
            + wiki_page_url(page) + "\">"@,
        page,
        "</a>"@ + " to "@ + spec_link(wiki_page_url(target), target),
    );
}

/// An upload message names its actor, the file, and the action phrase.
#[verifier::rlimit(100)]
#[verifier::spinoff_prover]
pub proof fn lemma_upload_msg_mentions(evt: JsonNode)
    ensures
        contains_seq(upload_msg_of(evt), evt_user(evt)),
        contains_seq(upload_msg_of(evt), evt_title(evt)),
        contains_seq(upload_msg_of(evt), " uploaded file: "@),
{
    let t = upload_msg_of(evt);
    let user = evt_user(evt);
    let file = evt_title(evt);
    assert(t =~= ("[log/upload] "@ + "<a href=\""@ + wiki_user_url(user) + "\">"@) + user + (
    "</a>"@ + " uploaded file: "@ + spec_link(wiki_page_url(file), file)));
    lemma_contains_concat_mid(
        "[log/upload] "@ + "<a href=\""@ + wiki_user_url(user) + "\">"@,
        user,
        "</a>"@ + " uploaded file: "@ + spec_link(wiki_page_url(file), file),
    );
    assert(t =~= ("[log/upload] "@ + spec_link(wiki_user_url(user), user)) + " uploaded file: "@
        + spec_link(wiki_page_url(file), file));
    lemma_contains_concat_mid(
        "[log/upload] "@ + spec_link(wiki_user_url(user), user),
        " uploaded file: "@,
        spec_link(wiki_page_url(file), file),
    );
    assert(t =~= ("[log/upload] "@ + spec_link(wiki_user_url(user), user) + " uploaded file: "@
        + "<a href=\""@ + wiki_page_url(file) + "\">"@) + file + "</a>"@);
    lemma_contains_concat_mid(
        "[log/upload] "@ + spec_link(wiki_user_url(user), user) + " uploaded file: "@
            + "<a href=\""@ + wiki_page_url(file) + "\">"@,
        file,
        "</a>"@,
    );
}

/// An approval message names its actor, its page, and the action phrase.
#[verifier::rlimit(100)]
#[verifier::spinoff_prover]
proof fn shape_approval(
    u1: Seq<char>,
    user: Seq<char>,
    verb: Seq<char>,
    url: Seq<char>,
    rl: Seq<char>,
    byline: Seq<char>,
    pu: Seq<char>,
    page: Seq<char>,
)
    ensures
        contains_seq(
            "[log/approval] "@ + spec_link(u1, user) + verb + spec_link(url, rl) + byline
                + " of "@ + spec_link(pu, page),
            user,
        ),
        contains_seq(
            "[log/approval] "@ + spec_link(u1, user) + verb + spec_link(url, rl) + byline
                + " of "@ + spec_link(pu, page),
            page,
        ),
        contains_seq(
            "[log/approval] "@ + spec_link(u1, user) + verb + spec_link(url, rl) + byline
                + " of "@ + spec_link(pu, page),
            verb,
        ),
{
    let t = "[log/approval] "@ + spec_link(u1, user) + verb + spec_link(url, rl) + byline
        + " of "@ + spec_link(pu, page);
    let tail = spec_link(url, rl) + byline + " of "@ + spec_link(pu, page);
    assert(t =~= ("[log/approval] "@ + "<a href=\""@ + u1 + "\">"@) + user + ("</a>"@ + verb
        + tail));
    lemma_contains_concat_mid(
        "[log/approval] "@ + "<a href=\""@ + u1 + "\">"@,
        user,
        "</a>"@ + verb + tail,
    );
    assert(t =~= ("[log/approval] "@ + spec_link(u1, user)) + verb + tail);
    lemma_contains_concat_mid("[log/approval] "@ + spec_link(u1, user), verb, tail);
    assert(t =~= ("[log/approval] "@ + spec_link(u1, user) + verb + spec_link(url, rl) + byline
        + " of "@ + "<a href=\""@ + pu + "\">"@) + page + "</a>"@);
    lemma_contains_concat_mid(
        "[log/approval] "@ + spec_link(u1, user) + verb + spec_link(url, rl) + byline + " of "@
            + "<a href=\""@ + pu + "\">"@,
        page,
        "</a>"@,
    );
}

/// An approval message names its actor, its page, and the action phrase.
pub proof fn lemma_approve_msg_mentions(
    user: Seq<char>,
    page: Seq<char>,
    revid: u32,
    oldrevid: u32,
    rev: Option<(Seq<char>, Seq<char>, Seq<char>)>,
)
    ensures
        contains_seq(approval_approve_msg(user, page, revid, oldrevid, rev), user),
        contains_seq(approval_approve_msg(user, page, revid, oldrevid, rev), page),
        contains_seq(approval_approve_msg(user, page, revid, oldrevid, rev), " approved "@),
{
    let parent = match rev {
        Some(tr) => tr.2,
        None => crate::text::dec_str(oldrevid as nat),
    };
    shape_approval(
        wiki_user_url(user),
        user,
        " approved "@,
        crate::wiki::approve_diff_url(page, revid, parent),
        "revision "@ + crate::text::dec_str(revid as nat),
        crate::wiki::rev_byline(rev),
        wiki_page_url(page),
        page,
    );
    assert(approval_approve_msg(user, page, revid, oldrevid, rev) == "[log/approval] "@
        + spec_link(wiki_user_url(user), user) + " approved "@ + spec_link(
        crate::wiki::approve_diff_url(page, revid, parent),
        "revision "@ + crate::text::dec_str(revid as nat),
    ) + crate::wiki::rev_byline(rev) + " of "@ + spec_link(wiki_page_url(page), page));
}

/// A revoked approval names its actor, its page, and the action phrase.
#[verifier::rlimit(100)]
#[verifier::spinoff_prover]
proof fn shape_unapproval(
    u1: Seq<char>,
    user: Seq<char>,
    pu: Seq<char>,
    page: Seq<char>,
    url: Seq<char>,
    rl: Seq<char>,
    byline: Seq<char>,
)
    ensures
        contains_seq(
            "[log/approval] "@ + spec_link(u1, user) + " revoked the approval of "@ + spec_link(
                pu,
                page,
            ) + " (was "@ + spec_link(url, rl) + byline + ")"@,
            user,
        ),
        contains_seq(
            "[log/approval] "@ + spec_link(u1, user) + " revoked the approval of "@ + spec_link(
                pu,
                page,
            ) + " (was "@ + spec_link(url, rl) + byline + ")"@,
            page,
        ),
        contains_seq(
            "[log/approval] "@ + spec_link(u1, user) + " revoked the approval of "@ + spec_link(
                pu,
                page,
            ) + " (was "@ + spec_link(url, rl) + byline + ")"@,
            " revoked the approval of "@,
        ),
{
    let t = "[log/approval] "@ + spec_link(u1, user) + " revoked the approval of "@ + spec_link(
        pu,
        page,
    ) + " (was "@ + spec_link(url, rl) + byline + ")"@;
    let tail = spec_link(pu, page) + " (was "@ + spec_link(url, rl) + byline + ")"@;
    assert(t =~= ("[log/approval] "@ + "<a href=\""@ + u1 + "\">"@) + user + ("</a>"@
        + " revoked the approval of "@ + tail));
    lemma_contains_concat_mid(
        "[log/approval] "@ + "<a href=\""@ + u1 + "\">"@,
        user,
        "</a>"@ + " revoked the approval of "@ + tail,
    );
    assert(t =~= ("[log/approval] "@ + spec_link(u1, user)) + " revoked the approval of "@
        + tail);
    lemma_contains_concat_mid(
        "[log/approval] "@ + spec_link(u1, user),
        " revoked the approval of "@,
        tail,
    );
    assert(t =~= ("[log/approval] "@ + spec_link(u1, user) + " revoked the approval of "@
        + "<a href=\""@ + pu + "\">"@) + page + ("</a>"@ + " (was "@ + spec_link(url, rl)
        + byline + ")"@));
    lemma_contains_concat_mid(
        "[log/approval] "@ + spec_link(u1, user) + " revoked the approval of "@ + "<a href=\""@
            + pu + "\">"@,
        page,
        "</a>"@ + " (was "@ + spec_link(url, rl) + byline + ")"@,
    );
}

/// A revoked approval names its actor, its page, and the action phrase.
pub proof fn lemma_unapprove_msg_mentions(
    user: Seq<char>,
    page: Seq<char>,
    oldrevid: u32,
    rev: Option<(Seq<char>, Seq<char>, Seq<char>)>,
)
    ensures
        contains_seq(approval_unapprove_msg(user, page, oldrevid, rev), user),
        contains_seq(approval_unapprove_msg(user, page, oldrevid, rev), page),
        contains_seq(
            approval_unapprove_msg(user, page, oldrevid, rev),
            " revoked the approval of "@,
        ),
{
    shape_unapproval(
        wiki_user_url(user),
        user,
        wiki_page_url(page),
        page,
        crate::wiki::unapprove_url(page, oldrevid),
        "revision "@ + crate::text::dec_str(oldrevid as nat),
        crate::wiki::rev_byline(rev),
    );
}

/// A patrol message names its actor, its page, and the action phrase.
#[verifier::rlimit(100)]
#[verifier::spinoff_prover]
pub proof fn lemma_patrol_msg_mentions(
    user: Seq<char>,
    page: Seq<char>,
    curid: u32,
    previd: u32,
    rev: Option<(Seq<char>, Seq<char>, Seq<char>)>,
)
    ensures
        contains_seq(patrol_msg(user, page, curid, previd, rev), user),
        contains_seq(patrol_msg(user, page, curid, previd, rev), page),
        contains_seq(patrol_msg(user, page, curid, previd, rev), " marked "@),
{
    let t = patrol_msg(user, page, curid, previd, rev);
    let revlink = spec_link(
        edit_diff_url(page, curid, previd),
        "revision "@ + crate::text::dec_str(curid as nat),
    );
    let byline = crate::wiki::rev_byline(rev);
    let tail = revlink + byline + " of "@ + spec_link(wiki_page_url(page), page) + " patrolled"@;
    assert(t =~= ("[log/patrol] "@ + "<a href=\""@ + wiki_user_url(user) + "\">"@) + user + (
    "</a>"@ + " marked "@ + tail));
    lemma_contains_concat_mid(
        "[log/patrol] "@ + "<a href=\""@ + wiki_user_url(user) + "\">"@,
        user,
        "</a>"@ + " marked "@ + tail,
    );
    assert(t =~= ("[log/patrol] "@ + spec_link(wiki_user_url(user), user)) + " marked "@ + tail);
    lemma_contains_concat_mid(
        "[log/patrol] "@ + spec_link(wiki_user_url(user), user),
        " marked "@,
        tail,
    );
    assert(t =~= ("[log/patrol] "@ + spec_link(wiki_user_url(user), user) + " marked "@ + revlink
        + byline + " of "@ + "<a href=\""@ + wiki_page_url(page) + "\">"@) + page + ("</a>"@
        + " patrolled"@));
    lemma_contains_concat_mid(
        "[log/patrol] "@ + spec_link(wiki_user_url(user), user) + " marked "@ + revlink + byline
            + " of "@ + "<a href=\""@ + wiki_page_url(page) + "\">"@,
        page,
        "</a>"@ + " patrolled"@,
    );
}

/// A star message names its actor, the repository, and the action phrase.
#[verifier::rlimit(100)]
#[verifier::spinoff_prover]
pub proof fn lemma_watch_msg_mentions(sender: GhUser, repository: GhRepo)
    ensures
        contains_seq(watch_msg(sender, repository), sender.login@),
        contains_seq(watch_msg(sender, repository), repository.full_name@),
        contains_seq(watch_msg(sender, repository), " starred "@),
{
    let t = watch_msg(sender, repository);
    assert(t =~= ("<a href=\""@ + sender.html_url@ + "\">"@) + sender.login@ + ("</a>"@
        + " starred "@ + spec_link(repository.html_url@, repository.full_name@)));
    lemma_contains_concat_mid(
        "<a href=\""@ + sender.html_url@ + "\">"@,
        sender.login@,
        "</a>"@ + " starred "@ + spec_link(repository.html_url@, repository.full_name@),
    );
    assert(t =~= (spec_link(sender.html_url@, sender.login@)) + " starred "@ + spec_link(
        repository.html_url@,
        repository.full_name@,
    ));
    lemma_contains_concat_mid(
        spec_link(sender.html_url@, sender.login@),
        " starred "@,
        spec_link(repository.html_url@, repository.full_name@),
    );
    assert(t =~= (spec_link(sender.html_url@, sender.login@) + " starred "@ + "<a href=\""@
        + repository.html_url@ + "\">"@) + repository.full_name@ + "</a>"@);
    lemma_contains_concat_mid(
        spec_link(sender.html_url@, sender.login@) + " starred "@ + "<a href=\""@
            + repository.html_url@ + "\">"@,
        repository.full_name@,
        "</a>"@,
    );
}

/// A fork message names its actor, both repositories, and the action phrase.
#[verifier::rlimit(100)]
#[verifier::spinoff_prover]
pub proof fn lemma_fork_msg_mentions(sender: GhUser, repository: GhRepo, forkee: GhRepo)
    ensures
        contains_seq(fork_msg(sender, repository, forkee), sender.login@),
        contains_seq(fork_msg(sender, repository, forkee), repository.full_name@),
        contains_seq(fork_msg(sender, repository, forkee), " forked "@),
{
    let t = fork_msg(sender, repository, forkee);
    let tail = spec_link(repository.html_url@, repository.full_name@) + " as "@ + spec_link(
        forkee.html_url@,
        forkee.full_name@,
    );
    assert(t =~= ("<a href=\""@ + sender.html_url@ + "\">"@) + sender.login@ + ("</a>"@
        + " forked "@ + tail));
    lemma_contains_concat_mid(
        "<a href=\""@ + sender.html_url@ + "\">"@,
        sender.login@,
        "</a>"@ + " forked "@ + tail,
    );
    assert(t =~= (spec_link(sender.html_url@, sender.login@)) + " forked "@ + tail);
    lemma_contains_concat_mid(spec_link(sender.html_url@, sender.login@), " forked "@, tail);
    assert(t =~= (spec_link(sender.html_url@, sender.login@) + " forked "@ + "<a href=\""@
        + repository.html_url@ + "\">"@) + repository.full_name@ + ("</a>"@ + " as "@ + spec_link(
        forkee.html_url@,
        forkee.full_name@,
    )));
    lemma_contains_concat_mid(
        spec_link(sender.html_url@, sender.login@) + " forked "@ + "<a href=\""@
            + repository.html_url@ + "\">"@,
        repository.full_name@,
        "</a>"@ + " as "@ + spec_link(forkee.html_url@, forkee.full_name@),
    );
}

/// A push message names its actor, the repository, and the action phrase.
#[verifier::rlimit(100)]
#[verifier::spinoff_prover]
proof fn shape_push(
    su: Seq<char>,
    login: Seq<char>,
    force: Seq<char>,
    compare: Seq<char>,
    cl: Seq<char>,
    ru: Seq<char>,
    rf: Seq<char>,
    refn: Seq<char>,
    suffix: Seq<char>,
)
    ensures
        contains_seq(
            spec_link(su, login) + " "@ + force + "pushed "@ + spec_link(compare, cl) + " to "@
                + spec_link(ru, rf) + " ("@ + refn + ")"@ + suffix,
            login,
        ),
        contains_seq(
            spec_link(su, login) + " "@ + force + "pushed "@ + spec_link(compare, cl) + " to "@
                + spec_link(ru, rf) + " ("@ + refn + ")"@ + suffix,
            rf,
        ),
        contains_seq(
            spec_link(su, login) + " "@ + force + "pushed "@ + spec_link(compare, cl) + " to "@
                + spec_link(ru, rf) + " ("@ + refn + ")"@ + suffix,
            "pushed "@,
        ),
{
    let t = spec_link(su, login) + " "@ + force + "pushed "@ + spec_link(compare, cl) + " to "@
        + spec_link(ru, rf) + " ("@ + refn + ")"@ + suffix;
    let tail = " ("@ + refn + ")"@ + suffix;
    assert(t =~= ("<a href=\""@ + su + "\">"@) + login + ("</a>"@ + " "@ + force + "pushed "@
        + spec_link(compare, cl) + " to "@ + spec_link(ru, rf) + tail));
    lemma_contains_concat_mid(
        "<a href=\""@ + su + "\">"@,
        login,
        "</a>"@ + " "@ + force + "pushed "@ + spec_link(compare, cl) + " to "@ + spec_link(ru, rf)
            + tail,
    );
    assert(t =~= (spec_link(su, login) + " "@ + force) + "pushed "@ + (spec_link(compare, cl)
        + " to "@ + spec_link(ru, rf) + tail));
    lemma_contains_concat_mid(
        spec_link(su, login) + " "@ + force,
        "pushed "@,
        spec_link(compare, cl) + " to "@ + spec_link(ru, rf) + tail,
    );
    assert(t =~= (spec_link(su, login) + " "@ + force + "pushed "@ + spec_link(compare, cl)
        + " to "@ + "<a href=\""@ + ru + "\">"@) + rf + ("</a>"@ + tail));
    lemma_contains_concat_mid(
        spec_link(su, login) + " "@ + force + "pushed "@ + spec_link(compare, cl) + " to "@
            + "<a href=\""@ + ru + "\">"@,
        rf,
        "</a>"@ + tail,
    );
}

/// A push message names its actor, the repository, and the action phrase.
pub proof fn lemma_push_msg_mentions(
    forced: bool,
    ref_name: Seq<char>,
    sender: GhUser,
    commits: Seq<GhCommit>,
    compare: Seq<char>,
    repository: GhRepo,
)
    ensures
        contains_seq(
            push_msg(forced, ref_name, sender, commits, compare, repository),
            sender.login@,
        ),
        contains_seq(
            push_msg(forced, ref_name, sender, commits, compare, repository),
            repository.full_name@,
        ),
        contains_seq(push_msg(forced, ref_name, sender, commits, compare, repository), "pushed "@),
{
    shape_push(
        sender.html_url@,
        sender.login@,
        if forced {
            "force-"@
        } else {
            Seq::<char>::empty()
        },
        compare,
        crate::text::dec_str(commits.len()) + " commit"@ + (if commits.len() == 1 {
            Seq::<char>::empty()
        } else {
            "s"@
        }),
        repository.html_url@,
        repository.full_name@,
        ref_name,
        if commits.len() == 1 {
            ": "@ + crate::text::html_escaped(commits[0].message@)
        } else {
            Seq::<char>::empty()
        },
    );
}

/// An issue message names its actor, the issue's repository tag, and the
/// delivered action verb.
#[verifier::rlimit(100)]
#[verifier::spinoff_prover]
pub proof fn lemma_issues_msg_mentions(
    action: Seq<char>,
    sender: GhUser,
    issue: crate::github::GhIssue,
    repository: GhRepo,
)
    ensures
        contains_seq(issues_msg(action, sender, issue, repository), sender.login@),
        contains_seq(issues_msg(action, sender, issue, repository), repository.full_name@),
        contains_seq(issues_msg(action, sender, issue, repository), action),
{
    let t = issues_msg(action, sender, issue, repository);
    let label = repository.full_name@ + "#"@ + crate::text::dec_str_int(issue.number as int);
    let tail = spec_link(issue.html_url@, label) + " ("@ + crate::github::debug_str_of(
        issue.title@,
    ) + ")"@;
    assert(t =~= ("<a href=\""@ + sender.html_url@ + "\">"@) + sender.login@ + ("</a>"@ + " "@
        + action + " issue "@ + tail));
    lemma_contains_concat_mid(
        "<a href=\""@ + sender.html_url@ + "\">"@,
        sender.login@,
        "</a>"@ + " "@ + action + " issue "@ + tail,
    );
    assert(t =~= (spec_link(sender.html_url@, sender.login@) + " "@) + action + (" issue "@
        + tail));
    lemma_contains_concat_mid(
        spec_link(sender.html_url@, sender.login@) + " "@,
        action,
        " issue "@ + tail,
    );
    assert(t =~= (spec_link(sender.html_url@, sender.login@) + " "@ + action + " issue "@
        + "<a href=\""@ + issue.html_url@ + "\">"@) + repository.full_name@ + ("#"@
        + crate::text::dec_str_int(issue.number as int) + "</a>"@ + " ("@
        + crate::github::debug_str_of(issue.title@) + ")"@));
    lemma_contains_concat_mid(
        spec_link(sender.html_url@, sender.login@) + " "@ + action + " issue "@ + "<a href=\""@
            + issue.html_url@ + "\">"@,
        repository.full_name@,
        "#"@ + crate::text::dec_str_int(issue.number as int) + "</a>"@ + " ("@
            + crate::github::debug_str_of(issue.title@) + ")"@,
    );
}

/// A member-change message names its actor, the member, and the verb the
/// action maps to.
#[verifier::rlimit(100)]
#[verifier::spinoff_prover]
pub proof fn lemma_member_msg_mentions(
    action: Seq<char>,
    sender: GhUser,
    member: GhUser,
    repository: GhRepo,
)
    ensures
        contains_seq(member_msg(action, sender, member, repository), sender.login@),
        contains_seq(member_msg(action, sender, member, repository), member.login@),
        contains_seq(member_msg(action, sender, member, repository), member_verb(action)),
{
    let t = member_msg(action, sender, member, repository);
    let tail = " "@ + spec_link(member.html_url@, member.login@) + " "@
        + crate::github::member_suffix(action) + " "@ + spec_link(
        repository.html_url@,
        repository.full_name@,
    );
    assert(t =~= ("<a href=\""@ + sender.html_url@ + "\">"@) + sender.login@ + ("</a>"@ + " "@
        + member_verb(action) + tail));
    lemma_contains_concat_mid(
        "<a href=\""@ + sender.html_url@ + "\">"@,
        sender.login@,
        "</a>"@ + " "@ + member_verb(action) + tail,
    );
    assert(t =~= (spec_link(sender.html_url@, sender.login@) + " "@) + member_verb(action) + tail);
    lemma_contains_concat_mid(
        spec_link(sender.html_url@, sender.login@) + " "@,
        member_verb(action),
        tail,
    );
    assert(t =~= (spec_link(sender.html_url@, sender.login@) + " "@ + member_verb(action) + " "@
        + "<a href=\""@ + member.html_url@ + "\">"@) + member.login@ + ("</a>"@ + " "@
        + crate::github::member_suffix(action) + " "@ + spec_link(
        repository.html_url@,
        repository.full_name@,
    )));
    lemma_contains_concat_mid(
        spec_link(sender.html_url@, sender.login@) + " "@ + member_verb(action) + " "@
            + "<a href=\""@ + member.html_url@ + "\">"@,
        member.login@,
        "</a>"@ + " "@ + crate::github::member_suffix(action) + " "@ + spec_link(
            repository.html_url@,
            repository.full_name@,
        ),
    );
}

/// A membership message names the member, the team, and the phrase the
/// action maps to.
#[verifier::rlimit(100)]
#[verifier::spinoff_prover]
pub proof fn lemma_membership_msg_mentions(
    action: Seq<char>,
    sender: GhUser,
    member: GhUser,
    team: GhTeam,
    organization: GhOrganization,
)
    ensures
        contains_seq(
            membership_msg(action, sender, member, team, organization),
            member.login@,
        ),
        contains_seq(membership_msg(action, sender, member, team, organization), team.name@),
        contains_seq(
            membership_msg(action, sender, member, team, organization),
            if action == "added"@ {
                "added to"@
            } else {
                "removed from"@
            },
        ),
{
    let t = membership_msg(action, sender, member, team, organization);
    let phrase = if action == "added"@ {
        "added to"@
    } else {
        "removed from"@
    };
    let tail = " "@ + spec_link(team.members_url@, organization.login@ + "/"@ + team.name@)
        + " by "@ + spec_link(sender.html_url@, sender.login@);
    assert(t =~= ("<a href=\""@ + member.html_url@ + "\">"@) + member.login@ + ("</a>"@ + " was "@
        + phrase + tail));
    lemma_contains_concat_mid(
        "<a href=\""@ + member.html_url@ + "\">"@,
        member.login@,
        "</a>"@ + " was "@ + phrase + tail,
    );
    assert(t =~= (spec_link(member.html_url@, member.login@) + " was "@) + phrase + tail);
    lemma_contains_concat_mid(
        spec_link(member.html_url@, member.login@) + " was "@,
        phrase,
        tail,
    );
    assert(t =~= (spec_link(member.html_url@, member.login@) + " was "@ + phrase + " "@
        + "<a href=\""@ + team.members_url@ + "\">"@ + organization.login@ + "/"@) + team.name@ + (
    "</a>"@ + " by "@ + spec_link(sender.html_url@, sender.login@)));
    lemma_contains_concat_mid(
        spec_link(member.html_url@, member.login@) + " was "@ + phrase + " "@ + "<a href=\""@
            + team.members_url@ + "\">"@ + organization.login@ + "/"@,
        team.name@,
        "</a>"@ + " by "@ + spec_link(sender.html_url@, sender.login@),
    );
}

/// A pull-request message names its actor, the repository, and the
/// delivered action verb.
#[verifier::rlimit(100)]
#[verifier::spinoff_prover]
proof fn shape_pull_request(
    su: Seq<char>,
    login: Seq<char>,
    action: Seq<char>,
    pru: Seq<char>,
    tl: Seq<char>,
    ru: Seq<char>,
    rf: Seq<char>,
    cu: Seq<char>,
    cl: Seq<char>,
    fu: Seq<char>,
    fl: Seq<char>,
    du: Seq<char>,
)
    ensures
        contains_seq(
            spec_link(su, login) + " "@ + action + " pull-request "@ + spec_link(pru, tl)
                + " to "@ + spec_link(ru, rf) + " ["@ + spec_link(cu, cl) + "; "@ + spec_link(
                fu,
                fl,
            ) + "; "@ + spec_link(du, "raw diff"@) + "]"@,
            login,
        ),
        contains_seq(
            spec_link(su, login) + " "@ + action + " pull-request "@ + spec_link(pru, tl)
                + " to "@ + spec_link(ru, rf) + " ["@ + spec_link(cu, cl) + "; "@ + spec_link(
                fu,
                fl,
            ) + "; "@ + spec_link(du, "raw diff"@) + "]"@,
            rf,
        ),
        contains_seq(
            spec_link(su, login) + " "@ + action + " pull-request "@ + spec_link(pru, tl)
                + " to "@ + spec_link(ru, rf) + " ["@ + spec_link(cu, cl) + "; "@ + spec_link(
                fu,
                fl,
            ) + "; "@ + spec_link(du, "raw diff"@) + "]"@,
            action,
        ),
{
    let t = spec_link(su, login) + " "@ + action + " pull-request "@ + spec_link(pru, tl)
        + " to "@ + spec_link(ru, rf) + " ["@ + spec_link(cu, cl) + "; "@ + spec_link(fu, fl)
        + "; "@ + spec_link(du, "raw diff"@) + "]"@;
    let stats = " ["@ + spec_link(cu, cl) + "; "@ + spec_link(fu, fl) + "; "@ + spec_link(
        du,
        "raw diff"@,
    ) + "]"@;
    assert(t =~= ("<a href=\""@ + su + "\">"@) + login + ("</a>"@ + " "@ + action
        + " pull-request "@ + spec_link(pru, tl) + " to "@ + spec_link(ru, rf) + stats));
    lemma_contains_concat_mid(
        "<a href=\""@ + su + "\">"@,
        login,
        "</a>"@ + " "@ + action + " pull-request "@ + spec_link(pru, tl) + " to "@ + spec_link(
            ru,
            rf,
        ) + stats,
    );
    assert(t =~= (spec_link(su, login) + " "@) + action + (" pull-request "@ + spec_link(pru, tl)
        + " to "@ + spec_link(ru, rf) + stats));
    lemma_contains_concat_mid(
        spec_link(su, login) + " "@,
        action,
        " pull-request "@ + spec_link(pru, tl) + " to "@ + spec_link(ru, rf) + stats,
    );
    assert(t =~= (spec_link(su, login) + " "@ + action + " pull-request "@ + spec_link(pru, tl)
        + " to "@ + "<a href=\""@ + ru + "\">"@) + rf + ("</a>"@ + stats));
    lemma_contains_concat_mid(
        spec_link(su, login) + " "@ + action + " pull-request "@ + spec_link(pru, tl) + " to "@
            + "<a href=\""@ + ru + "\">"@,
        rf,
        "</a>"@ + stats,
    );
}

/// A pull-request message names its actor, the repository, and the
/// delivered action verb.
pub proof fn lemma_pull_request_msg_mentions(
    action: Seq<char>,
    sender: GhUser,
    repository: GhRepo,
    pr: GhPullRequest,
)
    ensures
        contains_seq(pull_request_msg(action, sender, repository, pr), sender.login@),
        contains_seq(pull_request_msg(action, sender, repository, pr), repository.full_name@),
        contains_seq(pull_request_msg(action, sender, repository, pr), action),
{
    shape_pull_request(
        sender.html_url@,
        sender.login@,
        action,
        pr.html_url@,
        "\""@ + pr.title@ + "\" (#"@ + crate::text::dec_str_int(pr.number as int) + ")"@,
        repository.html_url@,
        repository.full_name@,
        pr.html_url@ + "/commits"@,
        crate::text::dec_str_int(pr.commits as int) + " commits"@,
        pr.html_url@ + "/files"@,
        crate::text::dec_str_int(pr.changed_files as int) + " changed files (+"@
            + crate::text::dec_str_int(pr.additions as int) + "/-"@ + crate::text::dec_str_int(
            pr.deletions as int,
        ) + ")]"@,
        pr.diff_url@,
    );
}

/// A repository message names its actor, the repository, and the delivered
/// action verb.
#[verifier::rlimit(100)]
#[verifier::spinoff_prover]
pub proof fn lemma_repository_msg_mentions(action: Seq<char>, sender: GhUser, repository: GhRepo)
    ensures
        contains_seq(repository_msg(action, sender, repository), sender.login@),
        contains_seq(repository_msg(action, sender, repository), repository.full_name@),
        contains_seq(repository_msg(action, sender, repository), action),
{
    let t = repository_msg(action, sender, repository);
    assert(t =~= ("<a href=\""@ + sender.html_url@ + "\">"@) + sender.login@ + ("</a>"@ + " "@
        + action + " repository "@ + spec_link(repository.html_url@, repository.full_name@)));
    lemma_contains_concat_mid(
        "<a href=\""@ + sender.html_url@ + "\">"@,
        sender.login@,
        "</a>"@ + " "@ + action + " repository "@ + spec_link(
            repository.html_url@,
            repository.full_name@,
        ),
    );
    assert(t =~= (spec_link(sender.html_url@, sender.login@) + " "@) + action + (" repository "@
        + spec_link(repository.html_url@, repository.full_name@)));
    lemma_contains_concat_mid(
        spec_link(sender.html_url@, sender.login@) + " "@,
        action,
        " repository "@ + spec_link(repository.html_url@, repository.full_name@),
    );
    assert(t =~= (spec_link(sender.html_url@, sender.login@) + " "@ + action + " repository "@
        + "<a href=\""@ + repository.html_url@ + "\">"@) + repository.full_name@ + "</a>"@);
    lemma_contains_concat_mid(
        spec_link(sender.html_url@, sender.login@) + " "@ + action + " repository "@
            + "<a href=\""@ + repository.html_url@ + "\">"@,
        repository.full_name@,
        "</a>"@,
    );
}

/// An issue-tracker message names its actor, the issue key, and the verb
/// its event type maps to.
#[verifier::rlimit(100)]
#[verifier::spinoff_prover]
proof fn shape_jira(
    pri: Seq<char>,
    st: Seq<char>,
    pu: Seq<char>,
    dn: Seq<char>,
    verb: Seq<char>,
    it: Seq<char>,
    bu: Seq<char>,
    key: Seq<char>,
    proj: Seq<char>,
    sum: Seq<char>,
)
    ensures
        contains_seq(
            "[<i>"@ + pri + "</i> | <i>"@ + st + "</i>] "@ + spec_link(pu, dn) + " "@ + verb
                + " "@ + it + " "@ + spec_link(bu, key) + " ["@ + proj + "]: <b>"@ + sum + "</b>"@,
            dn,
        ),
        contains_seq(
            "[<i>"@ + pri + "</i> | <i>"@ + st + "</i>] "@ + spec_link(pu, dn) + " "@ + verb
                + " "@ + it + " "@ + spec_link(bu, key) + " ["@ + proj + "]: <b>"@ + sum + "</b>"@,
            key,
        ),
        contains_seq(
            "[<i>"@ + pri + "</i> | <i>"@ + st + "</i>] "@ + spec_link(pu, dn) + " "@ + verb
                + " "@ + it + " "@ + spec_link(bu, key) + " ["@ + proj + "]: <b>"@ + sum + "</b>"@,
            verb,
        ),
{
    let head = "[<i>"@ + pri + "</i> | <i>"@ + st + "</i>] "@;
    let t = head + spec_link(pu, dn) + " "@ + verb + " "@ + it + " "@ + spec_link(bu, key)
        + " ["@ + proj + "]: <b>"@ + sum + "</b>"@;
    let tail = " ["@ + proj + "]: <b>"@ + sum + "</b>"@;
    assert(t =~= (head + "<a href=\""@ + pu + "\">"@) + dn + ("</a>"@ + " "@ + verb + " "@ + it
        + " "@ + spec_link(bu, key) + tail));
    lemma_contains_concat_mid(
        head + "<a href=\""@ + pu + "\">"@,
        dn,
        "</a>"@ + " "@ + verb + " "@ + it + " "@ + spec_link(bu, key) + tail,
    );
    assert(t =~= (head + spec_link(pu, dn) + " "@) + verb + (" "@ + it + " "@ + spec_link(bu, key)
        + tail));
    lemma_contains_concat_mid(
        head + spec_link(pu, dn) + " "@,
        verb,
        " "@ + it + " "@ + spec_link(bu, key) + tail,
    );
    assert(t =~= (head + spec_link(pu, dn) + " "@ + verb + " "@ + it + " "@ + "<a href=\""@ + bu
        + "\">"@) + key + ("</a>"@ + tail));
    lemma_contains_concat_mid(
        head + spec_link(pu, dn) + " "@ + verb + " "@ + it + " "@ + "<a href=\""@ + bu + "\">"@,
        key,
        "</a>"@ + tail,
    );
}

/// An issue-tracker message names its actor, the issue key, and the verb
/// its event type maps to.
pub proof fn lemma_jira_msg_mentions(event: JiraEvent, event_type: JiraEventType)
    ensures
        contains_seq(jira_msg(event, event_type), event.user.display_name@),
        contains_seq(jira_msg(event, event_type), event.issue.key@),
        contains_seq(jira_msg(event, event_type), spec_verb(event_type)),
{
    shape_jira(
        crate::jira::lower_of(event.issue.fields.priority.name@),
        crate::jira::lower_of(event.issue.fields.status.name@),
        "https://psychonaut.atlassian.net/people/"@ + event.user.account_id@,
        event.user.display_name@,
        spec_verb(event_type),
        crate::jira::lower_of(event.issue.fields.issuetype.name@),
        "https://psychonaut.atlassian.net/browse/"@ + event.issue.key@,
        event.issue.key@,
        event.issue.fields.project.name@,
        event.issue.fields.summary@,
    );
}

/// A payment message names the payer, the currency, and the action phrase.
#[verifier::rlimit(100)]
#[verifier::spinoff_prover]
proof fn shape_paypal(
    cur: Seq<char>,
    net: Seq<char>,
    fee: Seq<char>,
    gross: Seq<char>,
    first: Seq<char>,
    last: Seq<char>,
    glyph: Seq<char>,
    country: Seq<char>,
    email: Seq<char>,
)
    ensures
        contains_seq(
            "Received <b>"@ + cur + " "@ + net + "</b> (fee <b>"@ + cur + " "@ + fee
                + "</b>, gr. <b>"@ + cur + " "@ + gross + "</b>) from <b>"@ + first + " "@ + last
                + "</b> [<b>"@ + glyph + ", "@ + country + ", "@ + email + "</b>]"@,
            first,
        ),
        contains_seq(
            "Received <b>"@ + cur + " "@ + net + "</b> (fee <b>"@ + cur + " "@ + fee
                + "</b>, gr. <b>"@ + cur + " "@ + gross + "</b>) from <b>"@ + first + " "@ + last
                + "</b> [<b>"@ + glyph + ", "@ + country + ", "@ + email + "</b>]"@,
            cur,
        ),
        contains_seq(
            "Received <b>"@ + cur + " "@ + net + "</b> (fee <b>"@ + cur + " "@ + fee
                + "</b>, gr. <b>"@ + cur + " "@ + gross + "</b>) from <b>"@ + first + " "@ + last
                + "</b> [<b>"@ + glyph + ", "@ + country + ", "@ + email + "</b>]"@,
            "Received "@,
        ),
{
    let t = "Received <b>"@ + cur + " "@ + net + "</b> (fee <b>"@ + cur + " "@ + fee
        + "</b>, gr. <b>"@ + cur + " "@ + gross + "</b>) from <b>"@ + first + " "@ + last
        + "</b> [<b>"@ + glyph + ", "@ + country + ", "@ + email + "</b>]"@;
    let mid = " "@ + net + "</b> (fee <b>"@ + cur + " "@ + fee + "</b>, gr. <b>"@ + cur + " "@
        + gross + "</b>) from <b>"@;
    let tail = " "@ + last + "</b> [<b>"@ + glyph + ", "@ + country + ", "@ + email + "</b>]"@;
    assert(t =~= ("Received <b>"@ + cur + mid) + first + tail);
    lemma_contains_concat_mid("Received <b>"@ + cur + mid, first, tail);
    assert(t =~= ("Received <b>"@) + cur + (mid + first + tail));
    lemma_contains_concat_mid("Received <b>"@, cur, mid + first + tail);
    assert("Received <b>"@ =~= "Received "@ + "<b>"@) by {
        reveal_strlit("Received <b>");
        reveal_strlit("Received ");
        reveal_strlit("<b>");
    }
    assert(t =~= "Received "@ + ("<b>"@ + cur + mid + first + tail));
    lemma_contains_concat_left("Received "@, "<b>"@ + cur + mid + first + tail);
}

/// A payment message names the payer, the currency, and the action phrase.
pub proof fn lemma_paypal_msg_mentions(event: PayPalIpn)
    ensures
        contains_seq(paypal_msg(event), event.first_name@),
        contains_seq(paypal_msg(event), event.mc_currency@),
        contains_seq(paypal_msg(event), "Received "@),
{
    let g = crate::paypal::spec_parse_dec(event.mc_gross@).unwrap();
    let f = crate::paypal::spec_parse_dec(event.mc_fee@).unwrap();
    let net = crate::paypal::spec_net(g, f);
    shape_paypal(
        event.mc_currency@,
        crate::paypal::spec_format_dec(net.0, net.1),
        crate::paypal::spec_format_dec(f.0, f.1),
        crate::paypal::spec_format_dec(g.0, g.1),
        event.first_name@,
        event.last_name@,
        if event.payer_status@ == "verified"@ {
            "\u{2713}"@
        } else {
            "\u{2718}"@
        },
        event.residence_country@,
        event.payer_email@,
    );
}


/// The shared shape of the simple log messages: a tag, the actor linked,
/// and free text.
#[verifier::spinoff_prover]
proof fn shape_tag_user_comment(tag: Seq<char>, u: Seq<char>, user: Seq<char>, c: Seq<char>)
    ensures
        contains_seq(tag + spec_link(u, user) + " "@ + c, user),
        contains_seq(tag + spec_link(u, user) + " "@ + c, tag),
        contains_seq(tag + spec_link(u, user) + " "@ + c, c),
{
    let t = tag + spec_link(u, user) + " "@ + c;
    assert(t =~= (tag + "<a href=\""@ + u + "\">"@) + user + ("</a>"@ + " "@ + c));
    lemma_contains_concat_mid(tag + "<a href=\""@ + u + "\">"@, user, "</a>"@ + " "@ + c);
    assert(t =~= tag + (spec_link(u, user) + " "@ + c));
    lemma_contains_concat_left(tag, spec_link(u, user) + " "@ + c);
    assert(t =~= (tag + spec_link(u, user) + " "@) + c);
    lemma_contains_concat_right(tag + spec_link(u, user) + " "@, c);
}

/// An avatar message names its actor, its tag, and the comment.
pub proof fn lemma_avatar_msg_mentions(evt: JsonNode)
    ensures
        contains_seq(crate::wiki::avatar_msg_of(evt), evt_user(evt)),
        contains_seq(crate::wiki::avatar_msg_of(evt), "[log/avatar] "@),
        contains_seq(crate::wiki::avatar_msg_of(evt), crate::wiki::evt_comment(evt)),
{
    shape_tag_user_comment(
        "[log/avatar] "@,
        wiki_user_url(evt_user(evt)),
        evt_user(evt),
        crate::wiki::evt_comment(evt),
    );
}

/// A ban message names its actor, its tag, and the log comment.
pub proof fn lemma_block_msg_mentions(evt: JsonNode)
    ensures
        contains_seq(crate::wiki::block_msg_of(evt), evt_user(evt)),
        contains_seq(crate::wiki::block_msg_of(evt), "[log/ban] "@),
        contains_seq(crate::wiki::block_msg_of(evt), crate::wiki::evt_log_comment(evt)),
{
    shape_tag_user_comment(
        "[log/ban] "@,
        wiki_user_url(evt_user(evt)),
        evt_user(evt),
        crate::wiki::evt_log_comment(evt),
    );
}

/// A new-user message names its actor, its tag, and the log comment.
pub proof fn lemma_newusers_msg_mentions(evt: JsonNode)
    ensures
        contains_seq(crate::wiki::newusers_msg_of(evt), evt_user(evt)),
        contains_seq(crate::wiki::newusers_msg_of(evt), "[log/newusers] "@),
        contains_seq(crate::wiki::newusers_msg_of(evt), crate::wiki::evt_log_comment(evt)),
{
    shape_tag_user_comment(
        "[log/newusers] "@,
        wiki_user_url(evt_user(evt)),
        evt_user(evt),
        crate::wiki::evt_log_comment(evt),
    );
}

/// A profile message names its actor, its tag, and the log comment.
pub proof fn lemma_profile_msg_mentions(evt: JsonNode)
    ensures
        contains_seq(crate::wiki::profile_msg_of(evt), evt_user(evt)),
        contains_seq(crate::wiki::profile_msg_of(evt), "[log/profile] "@),
        contains_seq(crate::wiki::profile_msg_of(evt), crate::wiki::evt_log_comment(evt)),
{
    shape_tag_user_comment(
        "[log/profile] "@,
        wiki_user_url(evt_user(evt)),
        evt_user(evt),
        crate::wiki::evt_log_comment(evt),
    );
}

/// A rights message names its actor, its tag, and the log comment.
pub proof fn lemma_rights_msg_mentions(evt: JsonNode)
    ensures
        contains_seq(crate::wiki::rights_msg_of(evt), evt_user(evt)),
        contains_seq(crate::wiki::rights_msg_of(evt), "[log/rights] "@),
        contains_seq(crate::wiki::rights_msg_of(evt), crate::wiki::evt_log_comment(evt)),
{
    shape_tag_user_comment(
        "[log/rights] "@,
        wiki_user_url(evt_user(evt)),
        evt_user(evt),
        crate::wiki::evt_log_comment(evt),
    );
}

/// A user-merge message names its actor, its tag, and the decoded comment.
pub proof fn lemma_usermerge_msg_mentions(evt: JsonNode)
    ensures
        contains_seq(crate::wiki::usermerge_msg_of(evt), evt_user(evt)),
        contains_seq(crate::wiki::usermerge_msg_of(evt), "[log/usermerge] "@),
{
    shape_tag_user_comment(
        "[log/usermerge] "@,
        wiki_user_url(evt_user(evt)),
        evt_user(evt),
        crate::percent::spec_urldecoded(
            vstd::utf8::encode_utf8(crate::wiki::evt_log_comment(evt)),
        ),
    );
}

/// A thanks message carries its tag and the log comment.
pub proof fn lemma_thanks_msg_mentions(evt: JsonNode)
    ensures
        contains_seq(crate::wiki::thanks_msg_of(evt), "[log/thanks] "@),
        contains_seq(crate::wiki::thanks_msg_of(evt), crate::wiki::evt_log_comment(evt)),
{
    lemma_contains_concat_left("[log/thanks] "@, crate::wiki::evt_log_comment(evt));
    lemma_contains_concat_right("[log/thanks] "@, crate::wiki::evt_log_comment(evt));
}

#[verifier::spinoff_prover]
proof fn shape_commit_comment(su: Seq<char>, login: Seq<char>, cu: Seq<char>, label: Seq<char>)
    ensures
        contains_seq(
            spec_link(su, login) + " commented on commit "@ + spec_link(cu, label),
            login,
        ),
        contains_seq(
            spec_link(su, login) + " commented on commit "@ + spec_link(cu, label),
            label,
        ),
        contains_seq(
            spec_link(su, login) + " commented on commit "@ + spec_link(cu, label),
            " commented on commit "@,
        ),
{
    let t = spec_link(su, login) + " commented on commit "@ + spec_link(cu, label);
    assert(t =~= ("<a href=\""@ + su + "\">"@) + login + ("</a>"@ + " commented on commit "@
        + spec_link(cu, label)));
    lemma_contains_concat_mid(
        "<a href=\""@ + su + "\">"@,
        login,
        "</a>"@ + " commented on commit "@ + spec_link(cu, label),
    );
    assert(t =~= (spec_link(su, login)) + " commented on commit "@ + spec_link(cu, label));
    lemma_contains_concat_mid(spec_link(su, login), " commented on commit "@, spec_link(cu, label));
    assert(t =~= (spec_link(su, login) + " commented on commit "@ + "<a href=\""@ + cu + "\">"@)
        + label + "</a>"@);
    lemma_contains_concat_mid(
        spec_link(su, login) + " commented on commit "@ + "<a href=\""@ + cu + "\">"@,
        label,
        "</a>"@,
    );
}

/// A commit-comment message names its actor, the commit's label, and the
/// action phrase.
pub proof fn lemma_commit_comment_msg_mentions(
    sender: GhUser,
    comment: crate::github::GhComment,
    repository: GhRepo,
)
    ensures
        contains_seq(
            crate::github::commit_comment_msg(sender, comment, repository),
            sender.login@,
        ),
        contains_seq(
            crate::github::commit_comment_msg(sender, comment, repository),
            " commented on commit "@,
        ),
{
    shape_commit_comment(
        sender.html_url@,
        sender.login@,
        comment.html_url@,
        repository.full_name@ + ":"@ + crate::github::opt_or(comment.path, Seq::empty()) + ":L"@
            + crate::text::dec_str_int(
            match comment.line {
                Some(l) => l as int,
                None => 0,
            },
        ),
    );
}

#[verifier::spinoff_prover]
proof fn shape_delete_ref(
    su: Seq<char>,
    login: Seq<char>,
    rt: Seq<char>,
    rn: Seq<char>,
    ru: Seq<char>,
    rf: Seq<char>,
)
    ensures
        contains_seq(
            spec_link(su, login) + " deleted "@ + rt + " \""@ + rn + "\" of "@ + spec_link(
                ru,
                rf,
            ),
            login,
        ),
        contains_seq(
            spec_link(su, login) + " deleted "@ + rt + " \""@ + rn + "\" of "@ + spec_link(
                ru,
                rf,
            ),
            rn,
        ),
        contains_seq(
            spec_link(su, login) + " deleted "@ + rt + " \""@ + rn + "\" of "@ + spec_link(
                ru,
                rf,
            ),
            " deleted "@,
        ),
{
    let t = spec_link(su, login) + " deleted "@ + rt + " \""@ + rn + "\" of "@ + spec_link(
        ru,
        rf,
    );
    assert(t =~= ("<a href=\""@ + su + "\">"@) + login + ("</a>"@ + " deleted "@ + rt + " \""@
        + rn + "\" of "@ + spec_link(ru, rf)));
    lemma_contains_concat_mid(
        "<a href=\""@ + su + "\">"@,
        login,
        "</a>"@ + " deleted "@ + rt + " \""@ + rn + "\" of "@ + spec_link(ru, rf),
    );
    assert(t =~= (spec_link(su, login)) + " deleted "@ + (rt + " \""@ + rn + "\" of "@
        + spec_link(ru, rf)));
    lemma_contains_concat_mid(
        spec_link(su, login),
        " deleted "@,
        rt + " \""@ + rn + "\" of "@ + spec_link(ru, rf),
    );
    assert(t =~= (spec_link(su, login) + " deleted "@ + rt + " \""@) + rn + ("\" of "@
        + spec_link(ru, rf)));
    lemma_contains_concat_mid(
        spec_link(su, login) + " deleted "@ + rt + " \""@,
        rn,
        "\" of "@ + spec_link(ru, rf),
    );
}

/// A ref-deletion message names its actor, the deleted ref, and the action
/// phrase.
pub proof fn lemma_delete_ref_msg_mentions(
    ref_name: Seq<char>,
    ref_type: Seq<char>,
    sender: GhUser,
    repository: GhRepo,
)
    ensures
        contains_seq(
            crate::github::delete_ref_msg(ref_name, ref_type, sender, repository),
            sender.login@,
        ),
        contains_seq(
            crate::github::delete_ref_msg(ref_name, ref_type, sender, repository),
            ref_name,
        ),
        contains_seq(
            crate::github::delete_ref_msg(ref_name, ref_type, sender, repository),
            " deleted "@,
        ),
{
    shape_delete_ref(
        sender.html_url@,
        sender.login@,
        ref_type,
        ref_name,
        repository.html_url@,
        repository.full_name@,
    );
}

#[verifier::rlimit(100)]
#[verifier::spinoff_prover]
proof fn shape_release(
    su: Seq<char>,
    login: Seq<char>,
    action: Seq<char>,
    name: Seq<char>,
    tag: Seq<char>,
    branch: Seq<char>,
    draft: Seq<char>,
    pre: Seq<char>,
    ru: Seq<char>,
    rf: Seq<char>,
    body: Seq<char>,
)
    ensures
        contains_seq(
            spec_link(su, login) + " "@ + action + " release \""@ + name + "\" (tag "@ + tag
                + ", branch "@ + branch + draft + pre + ") of "@ + spec_link(ru, rf) + ":\n\n"@
                + body,
            login,
        ),
        contains_seq(
            spec_link(su, login) + " "@ + action + " release \""@ + name + "\" (tag "@ + tag
                + ", branch "@ + branch + draft + pre + ") of "@ + spec_link(ru, rf) + ":\n\n"@
                + body,
            rf,
        ),
        contains_seq(
            spec_link(su, login) + " "@ + action + " release \""@ + name + "\" (tag "@ + tag
                + ", branch "@ + branch + draft + pre + ") of "@ + spec_link(ru, rf) + ":\n\n"@
                + body,
            action,
        ),
{
    let t = spec_link(su, login) + " "@ + action + " release \""@ + name + "\" (tag "@ + tag
        + ", branch "@ + branch + draft + pre + ") of "@ + spec_link(ru, rf) + ":\n\n"@ + body;
    let tail = " release \""@ + name + "\" (tag "@ + tag + ", branch "@ + branch + draft + pre
        + ") of "@ + spec_link(ru, rf) + ":\n\n"@ + body;
    assert(t =~= ("<a href=\""@ + su + "\">"@) + login + ("</a>"@ + " "@ + action + tail));
    lemma_contains_concat_mid(
        "<a href=\""@ + su + "\">"@,
        login,
        "</a>"@ + " "@ + action + tail,
    );
    assert(t =~= (spec_link(su, login) + " "@) + action + tail);
    lemma_contains_concat_mid(spec_link(su, login) + " "@, action, tail);
    assert(t =~= (spec_link(su, login) + " "@ + action + " release \""@ + name + "\" (tag "@
        + tag + ", branch "@ + branch + draft + pre + ") of "@ + "<a href=\""@ + ru + "\">"@)
        + rf + ("</a>"@ + ":\n\n"@ + body));
    lemma_contains_concat_mid(
        spec_link(su, login) + " "@ + action + " release \""@ + name + "\" (tag "@ + tag
            + ", branch "@ + branch + draft + pre + ") of "@ + "<a href=\""@ + ru + "\">"@,
        rf,
        "</a>"@ + ":\n\n"@ + body,
    );
}

/// A release message names its actor, the repository, and the delivered
/// action verb.
pub proof fn lemma_release_msg_mentions(
    action: Seq<char>,
    sender: GhUser,
    release: crate::github::GhRelease,
    repository: GhRepo,
)
    ensures
        contains_seq(
            crate::github::release_msg(action, sender, release, repository),
            sender.login@,
        ),
        contains_seq(
            crate::github::release_msg(action, sender, release, repository),
            repository.full_name@,
        ),
        contains_seq(crate::github::release_msg(action, sender, release, repository), action),
{
    shape_release(
        sender.html_url@,
        sender.login@,
        action,
        crate::github::opt_or(release.name, "?"@),
        crate::github::opt_or(release.tag_name, "?"@),
        release.target_commitish@,
        if release.draft {
            ", draft"@
        } else {
            Seq::<char>::empty()
        },
        if release.prerelease {
            ", prerelease"@
        } else {
            Seq::<char>::empty()
        },
        repository.html_url@,
        repository.full_name@,
        crate::text::html_escaped(crate::github::opt_or(release.body, "?"@)),
    );
}

#[verifier::spinoff_prover]
proof fn shape_issue_comment(
    su: Seq<char>,
    login: Seq<char>,
    action: Seq<char>,
    url: Seq<char>,
    label: Seq<char>,
    quoted: Seq<char>,
)
    ensures
        contains_seq(
            spec_link(su, login) + " "@ + action + " a comment on issue "@ + spec_link(url, label)
                + " ("@ + quoted + ")"@,
            login,
        ),
        contains_seq(
            spec_link(su, login) + " "@ + action + " a comment on issue "@ + spec_link(url, label)
                + " ("@ + quoted + ")"@,
            label,
        ),
        contains_seq(
            spec_link(su, login) + " "@ + action + " a comment on issue "@ + spec_link(url, label)
                + " ("@ + quoted + ")"@,
            action,
        ),
{
    let t = spec_link(su, login) + " "@ + action + " a comment on issue "@ + spec_link(url, label)
        + " ("@ + quoted + ")"@;
    assert(t =~= ("<a href=\""@ + su + "\">"@) + login + ("</a>"@ + " "@ + action
        + " a comment on issue "@ + spec_link(url, label) + " ("@ + quoted + ")"@));
    lemma_contains_concat_mid(
        "<a href=\""@ + su + "\">"@,
        login,
        "</a>"@ + " "@ + action + " a comment on issue "@ + spec_link(url, label) + " ("@ + quoted
            + ")"@,
    );
    assert(t =~= (spec_link(su, login) + " "@) + action + (" a comment on issue "@ + spec_link(
        url,
        label,
    ) + " ("@ + quoted + ")"@));
    lemma_contains_concat_mid(
        spec_link(su, login) + " "@,
        action,
        " a comment on issue "@ + spec_link(url, label) + " ("@ + quoted + ")"@,
    );
    assert(t =~= (spec_link(su, login) + " "@ + action + " a comment on issue "@ + "<a href=\""@
        + url + "\">"@) + label + ("</a>"@ + " ("@ + quoted + ")"@));
    lemma_contains_concat_mid(
        spec_link(su, login) + " "@ + action + " a comment on issue "@ + "<a href=\""@ + url
            + "\">"@,
        label,
        "</a>"@ + " ("@ + quoted + ")"@,
    );
}

/// An issue-comment message names its actor, the issue's repository tag, and
/// the delivered action verb.
pub proof fn lemma_issue_comment_msg_mentions(
    action: Seq<char>,
    sender: GhUser,
    issue: crate::github::GhIssue,
    comment: crate::github::GhComment,
    repository: GhRepo,
)
    ensures
        contains_seq(
            crate::github::issue_comment_msg(action, sender, issue, comment, repository),
            sender.login@,
        ),
        contains_seq(
            crate::github::issue_comment_msg(action, sender, issue, comment, repository),
            repository.full_name@ + "#"@ + crate::text::dec_str_int(issue.number as int),
        ),
        contains_seq(
            crate::github::issue_comment_msg(action, sender, issue, comment, repository),
            action,
        ),
{
    shape_issue_comment(
        sender.html_url@,
        sender.login@,
        action,
        if action == "deleted"@ {
            issue.html_url@
        } else {
            comment.html_url@
        },
        repository.full_name@ + "#"@ + crate::text::dec_str_int(issue.number as int),
        crate::github::debug_str_of(issue.title@),
    );
}

#[verifier::rlimit(100)]
#[verifier::spinoff_prover]
proof fn shape_review(
    su: Seq<char>,
    login: Seq<char>,
    action: Seq<char>,
    rvu: Seq<char>,
    phrase: Seq<char>,
    pru: Seq<char>,
    tl: Seq<char>,
    cu: Seq<char>,
    fu: Seq<char>,
    du: Seq<char>,
)
    ensures
        contains_seq(
            spec_link(su, login) + " "@ + action + " "@ + spec_link(rvu, phrase)
                + " pull-request "@ + spec_link(pru, tl) + " ["@ + spec_link(cu, "commits"@)
                + "; "@ + spec_link(fu, "changed files"@) + "; "@ + spec_link(du, "raw diff"@)
                + "]"@,
            login,
        ),
        contains_seq(
            spec_link(su, login) + " "@ + action + " "@ + spec_link(rvu, phrase)
                + " pull-request "@ + spec_link(pru, tl) + " ["@ + spec_link(cu, "commits"@)
                + "; "@ + spec_link(fu, "changed files"@) + "; "@ + spec_link(du, "raw diff"@)
                + "]"@,
            phrase,
        ),
        contains_seq(
            spec_link(su, login) + " "@ + action + " "@ + spec_link(rvu, phrase)
                + " pull-request "@ + spec_link(pru, tl) + " ["@ + spec_link(cu, "commits"@)
                + "; "@ + spec_link(fu, "changed files"@) + "; "@ + spec_link(du, "raw diff"@)
                + "]"@,
            action,
        ),
{
    let t = spec_link(su, login) + " "@ + action + " "@ + spec_link(rvu, phrase)
        + " pull-request "@ + spec_link(pru, tl) + " ["@ + spec_link(cu, "commits"@) + "; "@
        + spec_link(fu, "changed files"@) + "; "@ + spec_link(du, "raw diff"@) + "]"@;
    let tail = " pull-request "@ + spec_link(pru, tl) + " ["@ + spec_link(cu, "commits"@) + "; "@
        + spec_link(fu, "changed files"@) + "; "@ + spec_link(du, "raw diff"@) + "]"@;
    assert(t =~= ("<a href=\""@ + su + "\">"@) + login + ("</a>"@ + " "@ + action + " "@
        + spec_link(rvu, phrase) + tail));
    lemma_contains_concat_mid(
        "<a href=\""@ + su + "\">"@,
        login,
        "</a>"@ + " "@ + action + " "@ + spec_link(rvu, phrase) + tail,
    );
    assert(t =~= (spec_link(su, login) + " "@) + action + (" "@ + spec_link(rvu, phrase) + tail));
    lemma_contains_concat_mid(
        spec_link(su, login) + " "@,
        action,
        " "@ + spec_link(rvu, phrase) + tail,
    );
    assert(t =~= (spec_link(su, login) + " "@ + action + " "@ + "<a href=\""@ + rvu + "\">"@)
        + phrase + ("</a>"@ + tail));
    lemma_contains_concat_mid(
        spec_link(su, login) + " "@ + action + " "@ + "<a href=\""@ + rvu + "\">"@,
        phrase,
        "</a>"@ + tail,
    );
}

/// A review message names its actor, the delivered action verb, and the
/// noun phrase the review state maps to.
pub proof fn lemma_review_msg_mentions(
    action: Seq<char>,
    sender: GhUser,
    repository: GhRepo,
    pr: GhPullRequest,
    review: crate::github::GhReview,
)
    ensures
        contains_seq(
            crate::github::pull_request_review_msg(action, sender, repository, pr, review),
            sender.login@,
        ),
        contains_seq(
            crate::github::pull_request_review_msg(action, sender, repository, pr, review),
            crate::github::review_state_phrase(review.state@),
        ),
        contains_seq(
            crate::github::pull_request_review_msg(action, sender, repository, pr, review),
            action,
        ),
{
    shape_review(
        sender.html_url@,
        sender.login@,
        action,
        review.html_url@,
        crate::github::review_state_phrase(review.state@),
        pr.html_url@,
        "\""@ + pr.title@ + "\" ("@ + repository.full_name@ + "/#"@ + crate::text::dec_str_int(
            pr.number as int,
        ) + ")"@,
        pr.html_url@ + "/commits"@,
        pr.html_url@ + "/files"@,
        pr.diff_url@,
    );
}

} // verus!
