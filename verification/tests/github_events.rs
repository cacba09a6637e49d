use eop::github::{
    github_format, GhCommit, GhComment, GhIssue, GhOrganization, GhPullRequest, GhRelease, GhRepo,
    GhReview, GhTeam, GhUser, GithubEvent,
};

fn user(login: &str) -> GhUser {
    GhUser { login: login.to_string(), html_url: format!("https://github.com/{}", login) }
}

fn repo(full: &str) -> GhRepo {
    GhRepo { full_name: full.to_string(), html_url: format!("https://github.com/{}", full) }
}

fn pull_request() -> GhPullRequest {
    GhPullRequest {
        html_url: "https://github.com/o/r/pull/7".to_string(),
        diff_url: "https://github.com/o/r/pull/7.diff".to_string(),
        title: "Fix things".to_string(),
        number: 7,
        commits: 3,
        changed_files: 2,
        additions: 10,
        deletions: 4,
    }
}

#[test]
fn push_with_two_commits_pluralizes_and_omits_suffix() {
    let evt = GithubEvent::Push {
        forced: false,
        ref_name: "refs/heads/master".to_string(),
        sender: user("dev"),
        commits: vec![
            GhCommit { message: "first".to_string() },
            GhCommit { message: "second".to_string() },
        ],
        compare: "https://github.com/o/r/compare/a...b".to_string(),
        repository: repo("o/r"),
    };
    let msg = github_format(&evt).expect("a push must produce a message");
    assert!(!msg.loud);
    assert!(msg.text.contains("2 commits"));
    assert!(!msg.text.contains(": first"));
    assert!(!msg.text.contains(": second"));
    assert_eq!(
        msg.text,
        "<a href=\"https://github.com/dev\">dev</a> pushed <a href=\"https://github.com/o/r/\
         compare/a...b\">2 commits</a> to <a href=\"https://github.com/o/r\">o/r</a> \
         (refs/heads/master)"
    );
}

#[test]
fn push_with_one_commit_appends_escaped_message() {
    let evt = GithubEvent::Push {
        forced: true,
        ref_name: "refs/heads/master".to_string(),
        sender: user("dev"),
        commits: vec![GhCommit { message: "hi <foo@bar.com>".to_string() }],
        compare: "https://github.com/o/r/compare/a...b".to_string(),
        repository: repo("o/r"),
    };
    let msg = github_format(&evt).expect("a push must produce a message");
    assert!(!msg.loud);
    assert!(msg.text.contains("force-pushed"));
    assert!(msg.text.contains("1 commit</a>"));
    assert!(msg.text.ends_with(": hi &lt;foo@bar.com&gt;"));
}

#[test]
fn synchronize_pull_request_is_filtered() {
    let evt = GithubEvent::PullRequest {
        action: "synchronize".to_string(),
        sender: user("dev"),
        repository: repo("o/r"),
        pull_request: pull_request(),
    };
    assert!(github_format(&evt).is_none());
}

#[test]
fn opened_pull_request_message() {
    let evt = GithubEvent::PullRequest {
        action: "opened".to_string(),
        sender: user("dev"),
        repository: repo("o/r"),
        pull_request: pull_request(),
    };
    let msg = github_format(&evt).expect("an opened pull-request must produce a message");
    assert!(!msg.loud);
    assert!(msg.text.contains(" opened pull-request "));
    assert!(msg.text.contains("\"Fix things\" (#7)"));
    assert!(msg.text.contains("3 commits"));
    assert!(msg.text.contains("2 changed files (+10/-4)]"));
    assert!(msg.text.contains("https://github.com/o/r/pull/7/commits"));
    assert!(msg.text.contains("raw diff"));
}

#[test]
fn edited_review_is_filtered() {
    let evt = GithubEvent::PullRequestReview {
        action: "submitted".to_string(),
        sender: user("dev"),
        repository: repo("o/r"),
        pull_request: pull_request(),
        review: GhReview {
            html_url: "https://github.com/o/r/pull/7#review".to_string(),
            state: "edited".to_string(),
        },
    };
    assert!(github_format(&evt).is_none());
}

#[test]
fn review_states_map_to_phrases() {
    for (state, phrase) in [
        ("approved", "an approval to"),
        ("dismissed", "an approval to"),
        ("commented", "a comment to"),
        ("changes_requested", "a request for changes to"),
        ("odd_state", "odd_state"),
    ] {
        let evt = GithubEvent::PullRequestReview {
            action: "submitted".to_string(),
            sender: user("dev"),
            repository: repo("o/r"),
            pull_request: pull_request(),
            review: GhReview {
                html_url: "https://github.com/o/r/pull/7#review".to_string(),
                state: state.to_string(),
            },
        };
        let msg = github_format(&evt).expect("a review must produce a message");
        assert!(msg.text.contains(&format!(">{}</a> pull-request", phrase)));
    }
}

#[test]
fn watch_is_silent() {
    let evt = GithubEvent::Watch { sender: user("fan"), repository: repo("o/r") };
    let msg = github_format(&evt).expect("a star must produce a message");
    assert!(!msg.loud);
    assert_eq!(
        msg.text,
        "<a href=\"https://github.com/fan\">fan</a> starred \
         <a href=\"https://github.com/o/r\">o/r</a>"
    );
}

#[test]
fn commit_comment_label_uses_defaults() {
    let evt = GithubEvent::CommitComment {
        sender: user("dev"),
        comment: GhComment {
            html_url: "https://github.com/o/r/commit/abc#c1".to_string(),
            path: None,
            line: None,
        },
        repository: repo("o/r"),
    };
    let msg = github_format(&evt).expect("a commit comment must produce a message");
    assert!(msg.loud);
    assert!(msg.text.contains(">o/r::L0</a>"));
}

#[test]
fn delete_ref_message() {
    let evt = GithubEvent::Delete {
        ref_name: "old-branch".to_string(),
        ref_type: "branch".to_string(),
        sender: user("dev"),
        repository: repo("o/r"),
    };
    let msg = github_format(&evt).expect("a ref deletion must produce a message");
    assert!(msg.text.contains(" deleted branch \"old-branch\" of "));
}

#[test]
fn release_defaults_and_escaping() {
    let evt = GithubEvent::Release {
        action: "published".to_string(),
        sender: user("dev"),
        release: GhRelease {
            name: None,
            tag_name: Some("v1.0".to_string()),
            target_commitish: "master".to_string(),
            draft: true,
            prerelease: false,
            body: Some("notes <b>".to_string()),
        },
        repository: repo("o/r"),
    };
    let msg = github_format(&evt).expect("a release must produce a message");
    assert!(msg.text.contains(" published release \"?\" (tag v1.0, branch master, draft) of "));
    assert!(msg.text.ends_with(":\n\nnotes &lt;b&gt;"));
}

#[test]
fn fork_message() {
    let evt = GithubEvent::Fork {
        sender: user("dev"),
        repository: repo("o/r"),
        forkee: repo("dev/r"),
    };
    let msg = github_format(&evt).expect("a fork must produce a message");
    assert!(msg.text.contains(" forked "));
    assert!(msg.text.contains(" as "));
}

#[test]
fn issues_message_quotes_title() {
    let evt = GithubEvent::Issues {
        action: "opened".to_string(),
        sender: user("dev"),
        issue: GhIssue {
            html_url: "https://github.com/o/r/issues/3".to_string(),
            number: 3,
            title: "bad \"bug\"".to_string(),
        },
        repository: repo("o/r"),
    };
    let msg = github_format(&evt).expect("an issue event must produce a message");
    assert!(msg.loud);
    assert!(msg.text.contains(">o/r#3</a>"));
    let quoted = format!("{:?}", "bad \"bug\"");
    assert!(msg.text.ends_with(&format!("({})", quoted)));
    assert!(!msg.text.ends_with("(bad \"bug\")"));
}

#[test]
fn issue_comment_deleted_links_to_issue() {
    let issue = GhIssue {
        html_url: "https://github.com/o/r/issues/3".to_string(),
        number: 3,
        title: "t".to_string(),
    };
    let comment = GhComment {
        html_url: "https://github.com/o/r/issues/3#c9".to_string(),
        path: None,
        line: None,
    };
    let deleted = GithubEvent::IssueComment {
        action: "deleted".to_string(),
        sender: user("dev"),
        issue,
        comment,
        repository: repo("o/r"),
    };
    let msg = github_format(&deleted).expect("an issue comment must produce a message");
    assert!(msg.text.contains("<a href=\"https://github.com/o/r/issues/3\">o/r#3</a>"));

    let issue = GhIssue {
        html_url: "https://github.com/o/r/issues/3".to_string(),
        number: 3,
        title: "t".to_string(),
    };
    let comment = GhComment {
        html_url: "https://github.com/o/r/issues/3#c9".to_string(),
        path: None,
        line: None,
    };
    let created = GithubEvent::IssueComment {
        action: "created".to_string(),
        sender: user("dev"),
        issue,
        comment,
        repository: repo("o/r"),
    };
    let msg = github_format(&created).expect("an issue comment must produce a message");
    assert!(msg.text.contains("<a href=\"https://github.com/o/r/issues/3#c9\">o/r#3</a>"));
}

#[test]
fn member_action_verbs() {
    for (action, verb, suffix) in [
        ("edited", "edited the permissions of", "in"),
        ("added", "added", "to"),
        ("deleted", "removed", "from"),
        ("other", "", ""),
    ] {
        let evt = GithubEvent::Member {
            action: action.to_string(),
            sender: user("boss"),
            member: user("dev"),
            repository: repo("o/r"),
        };
        let msg = github_format(&evt).expect("a member change must produce a message");
        assert!(msg.text.contains(&format!("</a> {} <a", verb)));
        assert!(msg.text.contains(&format!("</a> {} <a", suffix)));
    }
}

#[test]
fn membership_message() {
    let evt = GithubEvent::Membership {
        action: "removed".to_string(),
        sender: user("boss"),
        member: user("dev"),
        team: GhTeam {
            name: "core".to_string(),
            members_url: "https://api.github.com/teams/1/members".to_string(),
        },
        organization: GhOrganization { login: "org".to_string() },
    };
    let msg = github_format(&evt).expect("a membership change must produce a message");
    assert!(msg.text.contains(" was removed from "));
    assert!(msg.text.contains(">org/core</a>"));
    assert!(msg.text.contains(" by "));
}

#[test]
fn repository_message() {
    let evt = GithubEvent::Repository {
        action: "created".to_string(),
        sender: user("dev"),
        repository: repo("o/r"),
    };
    let msg = github_format(&evt).expect("a repository event must produce a message");
    assert!(msg.text.contains(" created repository "));
}

#[test]
fn unrecognized_kind_gets_fallback_dump() {
    let evt = GithubEvent::Unrecognized {
        kind: "deployment".to_string(),
        dump: "{\"a\":1}".to_string(),
    };
    let msg = github_format(&evt).expect("an unrecognized kind must produce the fallback");
    assert!(msg.loud);
    assert_eq!(msg.text, "[deployment_not_implemented] {\"a\":1}");
}

#[test]
fn null_sentinel_kind_is_dropped() {
    let evt = GithubEvent::Unrecognized { kind: "null".to_string(), dump: "{}".to_string() };
    assert!(github_format(&evt).is_none());
}
