//! The code-host event formatter: typed events, the noise filters (the
//! "synchronize" pull-request action and the "edited" review state), verb
//! tables for member and membership changes, commit pluralisation, and the
//! escaping of untrusted free text.
use vstd::prelude::*;
use vstd::string::*;

use crate::sink::Message;
use crate::text::{
    append_i64_dec, append_link, append_u64_dec, dec_str, dec_str_int, html_escaped,
    htmlescape_str, spec_link, str_eq,
};

verus! {

pub struct GhUser {
    pub login: String,
    pub html_url: String,
}

pub struct GhRepo {
    pub full_name: String,
    pub html_url: String,
}

pub struct GhComment {
    pub html_url: String,
    pub path: Option<String>,
    pub line: Option<i64>,
}

pub struct GhPullRequest {
    pub html_url: String,
    pub diff_url: String,
    pub title: String,
    pub number: i64,
    pub commits: i64,
    pub changed_files: i64,
    pub additions: i64,
    pub deletions: i64,
}

pub struct GhReview {
    pub html_url: String,
    pub state: String,
}

pub struct GhRelease {
    pub name: Option<String>,
    pub tag_name: Option<String>,
    pub target_commitish: String,
    pub draft: bool,
    pub prerelease: bool,
    pub body: Option<String>,
}

pub struct GhIssue {
    pub html_url: String,
    pub number: i64,
    pub title: String,
}

pub struct GhTeam {
    pub name: String,
    pub members_url: String,
}

pub struct GhOrganization {
    pub login: String,
}

pub struct GhCommit {
    pub message: String,
}

/// One delivery from the code host, reduced to the fields the formatter
/// reads. A delivery of any other kind carries its declared event name and
/// a raw dump, so that no event is silently lost.
pub enum GithubEvent {
    Watch { sender: GhUser, repository: GhRepo },
    CommitComment { sender: GhUser, comment: GhComment, repository: GhRepo },
    PullRequest { action: String, sender: GhUser, repository: GhRepo, pull_request: GhPullRequest },
    PullRequestReview {
        action: String,
        sender: GhUser,
        repository: GhRepo,
        pull_request: GhPullRequest,
        review: GhReview,
    },
    Delete { ref_name: String, ref_type: String, sender: GhUser, repository: GhRepo },
    Release { action: String, sender: GhUser, release: GhRelease, repository: GhRepo },
    Fork { sender: GhUser, repository: GhRepo, forkee: GhRepo },
    IssueComment {
        action: String,
        sender: GhUser,
        issue: GhIssue,
        comment: GhComment,
        repository: GhRepo,
    },
    Issues { action: String, sender: GhUser, issue: GhIssue, repository: GhRepo },
    Member { action: String, sender: GhUser, member: GhUser, repository: GhRepo },
    Membership {
        action: String,
        sender: GhUser,
        member: GhUser,
        team: GhTeam,
        organization: GhOrganization,
    },
    Push {
        forced: bool,
        ref_name: String,
        sender: GhUser,
        commits: Vec<GhCommit>,
        compare: String,
        repository: GhRepo,
    },
    Repository { action: String, sender: GhUser, repository: GhRepo },
    Unrecognized { kind: String, dump: String },
}

/// Names what the Debug rendering of a string returns: a quoted, escaped
/// form that depends on the characters alone.
pub uninterp spec fn debug_str_of(s: Seq<char>) -> Seq<char>;

/// Relies on the Debug rendering of str: its result is a function of the
/// characters alone.
#[verifier::external_body]
fn debug_quote(s: &str) -> (r: String)
    ensures
        r@ == debug_str_of(s@),
{
    format!("{:?}", s)
}

/// An optional text, a fixed fallback when absent.
pub open spec fn opt_or(o: Option<String>, fallback: Seq<char>) -> Seq<char> {
    match o {
        Some(s) => s@,
        None => fallback,
    }
}

fn clone_or(o: &Option<String>, fallback: &str) -> (r: String)
    ensures
        r@ == opt_or(*o, fallback@),
{
    match o {
        Some(s) => s.clone(),
        None => fallback.to_owned(),
    }
}

pub open spec fn watch_msg(sender: GhUser, repository: GhRepo) -> Seq<char> {
    spec_link(sender.html_url@, sender.login@) + " starred "@ + spec_link(
        repository.html_url@,
        repository.full_name@,
    )
}

pub open spec fn commit_comment_msg(sender: GhUser, comment: GhComment, repository: GhRepo) -> Seq<
    char,
> {
    spec_link(sender.html_url@, sender.login@) + " commented on commit "@ + spec_link(
        comment.html_url@,
        repository.full_name@ + ":"@ + opt_or(comment.path, Seq::empty()) + ":L"@ + dec_str_int(
            match comment.line {
                Some(l) => l as int,
                None => 0,
            },
        ),
    )
}

pub open spec fn pull_request_msg(
    action: Seq<char>,
    sender: GhUser,
    repository: GhRepo,
    pr: GhPullRequest,
) -> Seq<char> {
    spec_link(sender.html_url@, sender.login@) + " "@ + action + " pull-request "@ + spec_link(
        pr.html_url@,
        "\""@ + pr.title@ + "\" (#"@ + dec_str_int(pr.number as int) + ")"@,
    ) + " to "@ + spec_link(repository.html_url@, repository.full_name@) + " ["@ + spec_link(
        pr.html_url@ + "/commits"@,
        dec_str_int(pr.commits as int) + " commits"@,
    ) + "; "@ + spec_link(
        pr.html_url@ + "/files"@,
        dec_str_int(pr.changed_files as int) + " changed files (+"@ + dec_str_int(
            pr.additions as int,
        ) + "/-"@ + dec_str_int(pr.deletions as int) + ")]"@,
    ) + "; "@ + spec_link(pr.diff_url@, "raw diff"@) + "]"@
}

/// The friendly noun phrase for a review state; a dismissal reads as an
/// approval, an unknown state passes through.
pub open spec fn review_state_phrase(state: Seq<char>) -> Seq<char> {
    if state == "approved"@ {
        "an approval to"@
    } else if state == "dismissed"@ {
        "an approval to"@
    } else if state == "commented"@ {
        "a comment to"@
    } else if state == "changes_requested"@ {
        "a request for changes to"@
    } else {
        state
    }
}

pub open spec fn pull_request_review_msg(
    action: Seq<char>,
    sender: GhUser,
    repository: GhRepo,
    pr: GhPullRequest,
    review: GhReview,
) -> Seq<char> {
    spec_link(sender.html_url@, sender.login@) + " "@ + action + " "@ + spec_link(
        review.html_url@,
        review_state_phrase(review.state@),
    ) + " pull-request "@ + spec_link(
        pr.html_url@,
        "\""@ + pr.title@ + "\" ("@ + repository.full_name@ + "/#"@ + dec_str_int(pr.number as int)
            + ")"@,
    ) + " ["@ + spec_link(pr.html_url@ + "/commits"@, "commits"@) + "; "@ + spec_link(
        pr.html_url@ + "/files"@,
        "changed files"@,
    ) + "; "@ + spec_link(pr.diff_url@, "raw diff"@) + "]"@
}

pub open spec fn delete_ref_msg(
    ref_name: Seq<char>,
    ref_type: Seq<char>,
    sender: GhUser,
    repository: GhRepo,
) -> Seq<char> {
    spec_link(sender.html_url@, sender.login@) + " deleted "@ + ref_type + " \""@ + ref_name
        + "\" of "@ + spec_link(repository.html_url@, repository.full_name@)
}

pub open spec fn release_msg(
    action: Seq<char>,
    sender: GhUser,
    release: GhRelease,
    repository: GhRepo,
) -> Seq<char> {
    spec_link(sender.html_url@, sender.login@) + " "@ + action + " release \""@ + opt_or(
        release.name,
        "?"@,
    ) + "\" (tag "@ + opt_or(release.tag_name, "?"@) + ", branch "@ + release.target_commitish@
        + (if release.draft {
        ", draft"@
    } else {
        Seq::<char>::empty()
    }) + (if release.prerelease {
        ", prerelease"@
    } else {
        Seq::<char>::empty()
    }) + ") of "@ + spec_link(repository.html_url@, repository.full_name@) + ":\n\n"@
        + html_escaped(opt_or(release.body, "?"@))
}

pub open spec fn fork_msg(sender: GhUser, repository: GhRepo, forkee: GhRepo) -> Seq<char> {
    spec_link(sender.html_url@, sender.login@) + " forked "@ + spec_link(
        repository.html_url@,
        repository.full_name@,
    ) + " as "@ + spec_link(forkee.html_url@, forkee.full_name@)
}

pub open spec fn issue_comment_msg(
    action: Seq<char>,
    sender: GhUser,
    issue: GhIssue,
    comment: GhComment,
    repository: GhRepo,
) -> Seq<char> {
    let url = if action == "deleted"@ {
        issue.html_url@
    } else {
        comment.html_url@
    };
    spec_link(sender.html_url@, sender.login@) + " "@ + action + " a comment on issue "@
        + spec_link(
        url,
        repository.full_name@ + "#"@ + dec_str_int(issue.number as int),
    ) + " ("@ + debug_str_of(issue.title@) + ")"@
}

pub open spec fn issues_msg(
    action: Seq<char>,
    sender: GhUser,
    issue: GhIssue,
    repository: GhRepo,
) -> Seq<char> {
    spec_link(sender.html_url@, sender.login@) + " "@ + action + " issue "@ + spec_link(
        issue.html_url@,
        repository.full_name@ + "#"@ + dec_str_int(issue.number as int),
    ) + " ("@ + debug_str_of(issue.title@) + ")"@
}

/// The verb of a member change; empty for an unmatched action.
pub open spec fn member_verb(action: Seq<char>) -> Seq<char> {
    if action == "edited"@ {
        "edited the permissions of"@
    } else if action == "added"@ {
        "added"@
    } else if action == "deleted"@ {
        "removed"@
    } else {
        Seq::<char>::empty()
    }
}

/// The preposition of a member change; empty for an unmatched action.
pub open spec fn member_suffix(action: Seq<char>) -> Seq<char> {
    if action == "edited"@ {
        "in"@
    } else if action == "added"@ {
        "to"@
    } else if action == "deleted"@ {
        "from"@
    } else {
        Seq::<char>::empty()
    }
}

pub open spec fn member_msg(
    action: Seq<char>,
    sender: GhUser,
    member: GhUser,
    repository: GhRepo,
) -> Seq<char> {
    spec_link(sender.html_url@, sender.login@) + " "@ + member_verb(action) + " "@ + spec_link(
        member.html_url@,
        member.login@,
    ) + " "@ + member_suffix(action) + " "@ + spec_link(
        repository.html_url@,
        repository.full_name@,
    )
}

pub open spec fn membership_msg(
    action: Seq<char>,
    sender: GhUser,
    member: GhUser,
    team: GhTeam,
    organization: GhOrganization,
) -> Seq<char> {
    spec_link(member.html_url@, member.login@) + " was "@ + (if action == "added"@ {
        "added to"@
    } else {
        "removed from"@
    }) + " "@ + spec_link(
        team.members_url@,
        organization.login@ + "/"@ + team.name@,
    ) + " by "@ + spec_link(sender.html_url@, sender.login@)
}

pub open spec fn push_msg(
    forced: bool,
    ref_name: Seq<char>,
    sender: GhUser,
    commits: Seq<GhCommit>,
    compare: Seq<char>,
    repository: GhRepo,
) -> Seq<char> {
    spec_link(sender.html_url@, sender.login@) + " "@ + (if forced {
        "force-"@
    } else {
        Seq::<char>::empty()
    }) + "pushed "@ + spec_link(
        compare,
        dec_str(commits.len()) + " commit"@ + (if commits.len() == 1 {
            Seq::<char>::empty()
        } else {
            "s"@
        }),
    ) + " to "@ + spec_link(repository.html_url@, repository.full_name@) + " ("@ + ref_name + ")"@
        + (if commits.len() == 1 {
        ": "@ + html_escaped(commits[0].message@)
    } else {
        Seq::<char>::empty()
    })
}

pub open spec fn repository_msg(action: Seq<char>, sender: GhUser, repository: GhRepo) -> Seq<
    char,
> {
    spec_link(sender.html_url@, sender.login@) + " "@ + action + " repository "@ + spec_link(
        repository.html_url@,
        repository.full_name@,
    )
}

/// What the formatter owes for every delivery: the two noise filters drop
/// their events, the "null" sentinel kind produces nothing, any other
/// unrecognized kind produces the loud fallback dump, and every handled
/// kind produces exactly its template with its fixed loudness.
pub open spec fn spec_github_formatted(evt: GithubEvent, r: Option<Message>) -> bool {
    match evt {
        GithubEvent::Watch { sender, repository } => r matches Some(m) && m.text@ == watch_msg(
            sender,
            repository,
        ) && !m.loud,
        GithubEvent::CommitComment { sender, comment, repository } => r matches Some(m) && m.text@
            == commit_comment_msg(sender, comment, repository) && m.loud,
        GithubEvent::PullRequest { action, sender, repository, pull_request } => if action@
            == "synchronize"@ {
            r is None
        } else {
            r matches Some(m) && m.text@ == pull_request_msg(
                action@,
                sender,
                repository,
                pull_request,
            ) && !m.loud
        },
        GithubEvent::PullRequestReview { action, sender, repository, pull_request, review } => if review.state@
            == "edited"@ {
            r is None
        } else {
            r matches Some(m) && m.text@ == pull_request_review_msg(
                action@,
                sender,
                repository,
                pull_request,
                review,
            ) && !m.loud
        },
        GithubEvent::Delete { ref_name, ref_type, sender, repository } => r matches Some(m)
            && m.text@ == delete_ref_msg(ref_name@, ref_type@, sender, repository) && !m.loud,
        GithubEvent::Release { action, sender, release, repository } => r matches Some(m)
            && m.text@ == release_msg(action@, sender, release, repository) && !m.loud,
        GithubEvent::Fork { sender, repository, forkee } => r matches Some(m) && m.text@
            == fork_msg(sender, repository, forkee) && !m.loud,
        GithubEvent::IssueComment { action, sender, issue, comment, repository } => r matches Some(
            m,
        ) && m.text@ == issue_comment_msg(action@, sender, issue, comment, repository) && m.loud,
        GithubEvent::Issues { action, sender, issue, repository } => r matches Some(m) && m.text@
            == issues_msg(action@, sender, issue, repository) && m.loud,
        GithubEvent::Member { action, sender, member, repository } => r matches Some(m) && m.text@
            == member_msg(action@, sender, member, repository) && !m.loud,
        GithubEvent::Membership { action, sender, member, team, organization } => r matches Some(
            m,
        ) && m.text@ == membership_msg(action@, sender, member, team, organization) && !m.loud,
        GithubEvent::Push { forced, ref_name, sender, commits, compare, repository } => r matches Some(
            m,
        ) && m.text@ == push_msg(forced, ref_name@, sender, commits@, compare@, repository)
            && !m.loud,
        GithubEvent::Repository { action, sender, repository } => r matches Some(m) && m.text@
            == repository_msg(action@, sender, repository) && !m.loud,
        GithubEvent::Unrecognized { kind, dump } => if kind@ == "null"@ {
            r is None
        } else {
            r matches Some(m) && m.text@ == "["@ + kind@ + "_not_implemented] "@ + dump@
                && m.loud
        },
    }
}

fn review_phrase(state: &str) -> (r: String)
    ensures
        r@ == review_state_phrase(state@),
{
    proof {
        reveal_strlit("approved");
        reveal_strlit("dismissed");
        reveal_strlit("commented");
        reveal_strlit("changes_requested");
        assert("commented"@ != "dismissed"@) by {
            assert("commented"@[0] == 'c');
            assert("dismissed"@[0] == 'd');
        }
    }
    if str_eq(state, "approved") {
        "an approval to".to_owned()
    } else if str_eq(state, "dismissed") {
        "an approval to".to_owned()
    } else if str_eq(state, "commented") {
        "a comment to".to_owned()
    } else if str_eq(state, "changes_requested") {
        "a request for changes to".to_owned()
    } else {
        state.to_owned()
    }
}

/// Formats one delivery; the noise filters and the "null" sentinel kind
/// yield no message, any other unrecognized kind the loud fallback dump.
pub fn github_format(evt: &GithubEvent) -> (r: Option<Message>)
    ensures
        spec_github_formatted(*evt, r),
{
    match evt {
        GithubEvent::Watch { sender, repository } => {
            let mut text = String::new();
            append_link(&mut text, sender.html_url.as_str(), sender.login.as_str());
            text.append(" starred ");
            append_link(&mut text, repository.html_url.as_str(), repository.full_name.as_str());
            proof {
                assert(text@ =~= watch_msg(*sender, *repository));
            }
            Some(Message { text, loud: false })
        },
        GithubEvent::CommitComment { sender, comment, repository } => {
            proof {
                reveal_strlit("");
            }
            let mut label = repository.full_name.clone();
            label.append(":");
            let path = clone_or(&comment.path, "");
            label.append(path.as_str());
            label.append(":L");
            let line: i64 = match &comment.line {
                Some(l) => *l,
                None => 0,
            };
            append_i64_dec(&mut label, line);
            let mut text = String::new();
            append_link(&mut text, sender.html_url.as_str(), sender.login.as_str());
            text.append(" commented on commit ");
            append_link(&mut text, comment.html_url.as_str(), label.as_str());
            proof {
                assert(text@ =~= commit_comment_msg(*sender, *comment, *repository));
            }
            Some(Message { text, loud: true })
        },
        GithubEvent::PullRequest { action, sender, repository, pull_request } => {
            if str_eq(action.as_str(), "synchronize") {
                return None;
            }
            let pr = pull_request;
            let mut title_label = "\"".to_owned();
            title_label.append(pr.title.as_str());
            title_label.append("\" (#");
            append_i64_dec(&mut title_label, pr.number);
            title_label.append(")");
            let mut commits_url = pr.html_url.clone();
            commits_url.append("/commits");
            let mut commits_label = String::new();
            append_i64_dec(&mut commits_label, pr.commits);
            commits_label.append(" commits");
            let mut files_url = pr.html_url.clone();
            files_url.append("/files");
            let mut files_label = String::new();
            append_i64_dec(&mut files_label, pr.changed_files);
            files_label.append(" changed files (+");
            append_i64_dec(&mut files_label, pr.additions);
            files_label.append("/-");
            append_i64_dec(&mut files_label, pr.deletions);
            files_label.append(")]");
            let mut text = String::new();
            append_link(&mut text, sender.html_url.as_str(), sender.login.as_str());
            text.append(" ");
            text.append(action.as_str());
            text.append(" pull-request ");
            append_link(&mut text, pr.html_url.as_str(), title_label.as_str());
            text.append(" to ");
            append_link(&mut text, repository.html_url.as_str(), repository.full_name.as_str());
            text.append(" [");
            append_link(&mut text, commits_url.as_str(), commits_label.as_str());
            text.append("; ");
            append_link(&mut text, files_url.as_str(), files_label.as_str());
            text.append("; ");
            append_link(&mut text, pr.diff_url.as_str(), "raw diff");
            text.append("]");
            proof {
                assert(text@ =~= pull_request_msg(action@, *sender, *repository, *pull_request));
            }
            Some(Message { text, loud: false })
        },
        GithubEvent::PullRequestReview { action, sender, repository, pull_request, review } => {
            if str_eq(review.state.as_str(), "edited") {
                return None;
            }
            let pr = pull_request;
            let phrase = review_phrase(review.state.as_str());
            let mut title_label = "\"".to_owned();
            title_label.append(pr.title.as_str());
            title_label.append("\" (");
            title_label.append(repository.full_name.as_str());
            title_label.append("/#");
            append_i64_dec(&mut title_label, pr.number);
            title_label.append(")");
            let mut commits_url = pr.html_url.clone();
            commits_url.append("/commits");
            let mut files_url = pr.html_url.clone();
            files_url.append("/files");
            let mut text = String::new();
            append_link(&mut text, sender.html_url.as_str(), sender.login.as_str());
            text.append(" ");
            text.append(action.as_str());
            text.append(" ");
            append_link(&mut text, review.html_url.as_str(), phrase.as_str());
            text.append(" pull-request ");
            append_link(&mut text, pr.html_url.as_str(), title_label.as_str());
            text.append(" [");
            append_link(&mut text, commits_url.as_str(), "commits");
            text.append("; ");
            append_link(&mut text, files_url.as_str(), "changed files");
            text.append("; ");
            append_link(&mut text, pr.diff_url.as_str(), "raw diff");
            text.append("]");
            proof {
                assert(text@ =~= pull_request_review_msg(
                    action@,
                    *sender,
                    *repository,
                    *pull_request,
                    *review,
                ));
            }
            Some(Message { text, loud: false })
        },
        GithubEvent::Delete { ref_name, ref_type, sender, repository } => {
            let mut text = String::new();
            append_link(&mut text, sender.html_url.as_str(), sender.login.as_str());
            text.append(" deleted ");
            text.append(ref_type.as_str());
            text.append(" \"");
            text.append(ref_name.as_str());
            text.append("\" of ");
            append_link(&mut text, repository.html_url.as_str(), repository.full_name.as_str());
            proof {
                assert(text@ =~= delete_ref_msg(ref_name@, ref_type@, *sender, *repository));
            }
            Some(Message { text, loud: false })
        },
        GithubEvent::Release { action, sender, release, repository } => {
            let name = clone_or(&release.name, "?");
            let tag = clone_or(&release.tag_name, "?");
            let body = clone_or(&release.body, "?");
            let escaped_body = htmlescape_str(body.as_str());
            let mut text = String::new();
            append_link(&mut text, sender.html_url.as_str(), sender.login.as_str());
            text.append(" ");
            text.append(action.as_str());
            text.append(" release \"");
            text.append(name.as_str());
            text.append("\" (tag ");
            text.append(tag.as_str());
            text.append(", branch ");
            text.append(release.target_commitish.as_str());
            if release.draft {
                text.append(", draft");
            }
            if release.prerelease {
                text.append(", prerelease");
            }
            text.append(") of ");
            append_link(&mut text, repository.html_url.as_str(), repository.full_name.as_str());
            text.append(":\n\n");
            text.append(escaped_body.as_str());
            proof {
                assert(text@ =~= release_msg(action@, *sender, *release, *repository));
            }
            Some(Message { text, loud: false })
        },
        GithubEvent::Fork { sender, repository, forkee } => {
            let mut text = String::new();
            append_link(&mut text, sender.html_url.as_str(), sender.login.as_str());
            text.append(" forked ");
            append_link(&mut text, repository.html_url.as_str(), repository.full_name.as_str());
            text.append(" as ");
            append_link(&mut text, forkee.html_url.as_str(), forkee.full_name.as_str());
            proof {
                assert(text@ =~= fork_msg(*sender, *repository, *forkee));
            }
            Some(Message { text, loud: false })
        },
        GithubEvent::IssueComment { action, sender, issue, comment, repository } => {
            let mut issue_label = repository.full_name.clone();
            issue_label.append("#");
            append_i64_dec(&mut issue_label, issue.number);
            let quoted = debug_quote(issue.title.as_str());
            let mut text = String::new();
            append_link(&mut text, sender.html_url.as_str(), sender.login.as_str());
            text.append(" ");
            text.append(action.as_str());
            text.append(" a comment on issue ");
            if str_eq(action.as_str(), "deleted") {
                append_link(&mut text, issue.html_url.as_str(), issue_label.as_str());
            } else {
                append_link(&mut text, comment.html_url.as_str(), issue_label.as_str());
            }
            text.append(" (");
            text.append(quoted.as_str());
            text.append(")");
            proof {
                assert(text@ =~= issue_comment_msg(
                    action@,
                    *sender,
                    *issue,
                    *comment,
                    *repository,
                ));
            }
            Some(Message { text, loud: true })
        },
        GithubEvent::Issues { action, sender, issue, repository } => {
            let mut issue_label = repository.full_name.clone();
            issue_label.append("#");
            append_i64_dec(&mut issue_label, issue.number);
            let quoted = debug_quote(issue.title.as_str());
            let mut text = String::new();
            append_link(&mut text, sender.html_url.as_str(), sender.login.as_str());
            text.append(" ");
            text.append(action.as_str());
            text.append(" issue ");
            append_link(&mut text, issue.html_url.as_str(), issue_label.as_str());
            text.append(" (");
            text.append(quoted.as_str());
            text.append(")");
            proof {
                assert(text@ =~= issues_msg(action@, *sender, *issue, *repository));
            }
            Some(Message { text, loud: true })
        },
        GithubEvent::Member { action, sender, member, repository } => {
            proof {
                reveal_strlit("edited");
                reveal_strlit("added");
                reveal_strlit("deleted");
            }
            let verb: &str = if str_eq(action.as_str(), "edited") {
                "edited the permissions of"
            } else if str_eq(action.as_str(), "added") {
                "added"
            } else if str_eq(action.as_str(), "deleted") {
                "removed"
            } else {
                ""
            };
            let suffix: &str = if str_eq(action.as_str(), "edited") {
                "in"
            } else if str_eq(action.as_str(), "added") {
                "to"
            } else if str_eq(action.as_str(), "deleted") {
                "from"
            } else {
                ""
            };
            proof {
                reveal_strlit("");
                assert(verb@ == member_verb(action@));
                assert(suffix@ == member_suffix(action@));
            }
            let mut text = String::new();
            append_link(&mut text, sender.html_url.as_str(), sender.login.as_str());
            text.append(" ");
            text.append(verb);
            text.append(" ");
            append_link(&mut text, member.html_url.as_str(), member.login.as_str());
            text.append(" ");
            text.append(suffix);
            text.append(" ");
            append_link(&mut text, repository.html_url.as_str(), repository.full_name.as_str());
            proof {
                assert(text@ =~= member_msg(action@, *sender, *member, *repository));
            }
            Some(Message { text, loud: false })
        },
        GithubEvent::Membership { action, sender, member, team, organization } => {
            let mut team_label = organization.login.clone();
            team_label.append("/");
            team_label.append(team.name.as_str());
            let mut text = String::new();
            append_link(&mut text, member.html_url.as_str(), member.login.as_str());
            text.append(" was ");
            if str_eq(action.as_str(), "added") {
                text.append("added to");
            } else {
                text.append("removed from");
            }
            text.append(" ");
            append_link(&mut text, team.members_url.as_str(), team_label.as_str());
            text.append(" by ");
            append_link(&mut text, sender.html_url.as_str(), sender.login.as_str());
            proof {
                assert(text@ =~= membership_msg(action@, *sender, *member, *team, *organization));
            }
            Some(Message { text, loud: false })
        },
        GithubEvent::Push { forced, ref_name, sender, commits, compare, repository } => {
            let n = commits.len();
            let mut compare_label = String::new();
            append_u64_dec(&mut compare_label, n as u64);
            compare_label.append(" commit");
            if n != 1 {
                compare_label.append("s");
            }
            let mut text = String::new();
            append_link(&mut text, sender.html_url.as_str(), sender.login.as_str());
            text.append(" ");
            if *forced {
                text.append("force-");
            }
            text.append("pushed ");
            append_link(&mut text, compare.as_str(), compare_label.as_str());
            text.append(" to ");
            append_link(&mut text, repository.html_url.as_str(), repository.full_name.as_str());
            text.append(" (");
            text.append(ref_name.as_str());
            text.append(")");
            if n == 1 {
                text.append(": ");
                let escaped = htmlescape_str(commits[0].message.as_str());
                text.append(escaped.as_str());
            }
            proof {
                assert(text@ =~= push_msg(
                    *forced,
                    ref_name@,
                    *sender,
                    commits@,
                    compare@,
                    *repository,
                ));
            }
            Some(Message { text, loud: false })
        },
        GithubEvent::Repository { action, sender, repository } => {
            let mut text = String::new();
            append_link(&mut text, sender.html_url.as_str(), sender.login.as_str());
            text.append(" ");
            text.append(action.as_str());
            text.append(" repository ");
            append_link(&mut text, repository.html_url.as_str(), repository.full_name.as_str());
            proof {
                assert(text@ =~= repository_msg(action@, *sender, *repository));
            }
            Some(Message { text, loud: false })
        },
        GithubEvent::Unrecognized { kind, dump } => {
            if str_eq(kind.as_str(), "null") {
                return None;
            }
            let mut text = "[".to_owned();
            text.append(kind.as_str());
            text.append("_not_implemented] ");
            text.append(dump.as_str());
            proof {
                assert(text@ =~= "["@ + kind@ + "_not_implemented] "@ + dump@);
            }
            Some(Message { text, loud: true })
        },
    }
}

} // verus!
