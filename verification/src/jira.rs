//! The issue-tracker event formatter: the closed set of webhook event names,
//! the verb each maps to, and the bracketed priority/status message template.
use vstd::prelude::*;
use vstd::string::*;

use crate::sink::Message;
use crate::text::{append_link, spec_link, str_eq};

verus! {

pub struct JiraUser {
    pub account_id: String,
    pub display_name: String,
}

pub struct JiraNamed {
    pub name: String,
}

pub struct JiraStatus {
    pub name: String,
    pub status_category: JiraNamed,
}

pub struct JiraFields {
    pub issuetype: JiraNamed,
    pub project: JiraNamed,
    pub priority: JiraNamed,
    pub status: JiraStatus,
    pub summary: String,
    pub creator: JiraUser,
    pub reporter: JiraUser,
}

pub struct JiraIssue {
    pub self_url: String,
    pub key: String,
    pub fields: JiraFields,
}

pub struct JiraEvent {
    pub user: JiraUser,
    pub issue: JiraIssue,
    pub webhook_event: String,
}

#[derive(Clone, Copy, PartialEq, Eq, Structural, Debug)]
pub enum JiraEventType {
    IssueCreated,
    IssueUpdated,
    IssueDeleted,
}

/// Names what lower-casing a string returns: a form that depends on the
/// characters alone.
pub uninterp spec fn lower_of(s: Seq<char>) -> Seq<char>;

/// Relies on str::to_lowercase: its result is a function of the characters
/// alone, and an empty string stays empty.
#[verifier::external_body]
fn lowercase(s: &str) -> (r: String)
    ensures
        r@ == lower_of(s@),
        s@.len() == 0 ==> r@.len() == 0,
{
    s.to_lowercase()
}

/// The closed set of recognised webhook event names; anything else is
/// ignored outright.
pub open spec fn spec_jira_event_type(webhook_event: Seq<char>) -> Option<JiraEventType> {
    if webhook_event == "jira:issue_created"@ {
        Some(JiraEventType::IssueCreated)
    } else if webhook_event == "jira:issue_updated"@ {
        Some(JiraEventType::IssueUpdated)
    } else if webhook_event == "jira:issue_deleted"@ {
        Some(JiraEventType::IssueDeleted)
    } else {
        None
    }
}

pub fn jira_event_type(webhook_event: &str) -> (r: Option<JiraEventType>)
    ensures
        r == spec_jira_event_type(webhook_event@),
{
    proof {
        reveal_strlit("jira:issue_created");
        reveal_strlit("jira:issue_updated");
        reveal_strlit("jira:issue_deleted");
        assert("jira:issue_updated"@ != "jira:issue_created"@) by {
            assert("jira:issue_updated"@[11] == 'u');
            assert("jira:issue_created"@[11] == 'c');
        }
        assert("jira:issue_deleted"@ != "jira:issue_created"@) by {
            assert("jira:issue_deleted"@[11] == 'd');
            assert("jira:issue_created"@[11] == 'c');
        }
        assert("jira:issue_deleted"@ != "jira:issue_updated"@) by {
            assert("jira:issue_deleted"@[11] == 'd');
            assert("jira:issue_updated"@[11] == 'u');
        }
    }
    if str_eq(webhook_event, "jira:issue_created") {
        Some(JiraEventType::IssueCreated)
    } else if str_eq(webhook_event, "jira:issue_updated") {
        Some(JiraEventType::IssueUpdated)
    } else if str_eq(webhook_event, "jira:issue_deleted") {
        Some(JiraEventType::IssueDeleted)
    } else {
        None
    }
}

/// The action verb of each event type.
pub open spec fn spec_verb(event_type: JiraEventType) -> Seq<char> {
    match event_type {
        JiraEventType::IssueUpdated => "updated"@,
        JiraEventType::IssueCreated => "created"@,
        JiraEventType::IssueDeleted => "deleted"@,
    }
}

pub fn get_verb_from_type(event_type: JiraEventType) -> (r: &'static str)
    ensures
        r@ == spec_verb(event_type),
{
    match event_type {
        JiraEventType::IssueUpdated => "updated",
        JiraEventType::IssueCreated => "created",
        JiraEventType::IssueDeleted => "deleted",
    }
}

/// The issue message: bracketed lower-cased priority and status, the actor
/// linked to their tracker profile, the verb, the lower-cased issue type,
/// the issue key linked to the tracker, the project, and the summary.
pub open spec fn jira_msg(event: JiraEvent, event_type: JiraEventType) -> Seq<char> {
    "[<i>"@ + lower_of(event.issue.fields.priority.name@) + "</i> | <i>"@ + lower_of(
        event.issue.fields.status.name@,
    ) + "</i>] "@ + spec_link(
        "https://psychonaut.atlassian.net/people/"@ + event.user.account_id@,
        event.user.display_name@,
    ) + " "@ + spec_verb(event_type) + " "@ + lower_of(event.issue.fields.issuetype.name@) + " "@
        + spec_link(
        "https://psychonaut.atlassian.net/browse/"@ + event.issue.key@,
        event.issue.key@,
    ) + " ["@ + event.issue.fields.project.name@ + "]: <b>"@ + event.issue.fields.summary@
        + "</b>"@
}

/// Renders a recognised issue event.
pub fn get_formatted_event(event: &JiraEvent, event_type: JiraEventType) -> (r: String)
    ensures
        r@ == jira_msg(*event, event_type),
{
    let pri = lowercase(event.issue.fields.priority.name.as_str());
    let status = lowercase(event.issue.fields.status.name.as_str());
    let itype = lowercase(event.issue.fields.issuetype.name.as_str());
    let verb = get_verb_from_type(event_type);

    let mut people_url = "https://psychonaut.atlassian.net/people/".to_owned();
    people_url.append(event.user.account_id.as_str());
    let mut browse_url = "https://psychonaut.atlassian.net/browse/".to_owned();
    browse_url.append(event.issue.key.as_str());

    let mut text = "[<i>".to_owned();
    text.append(pri.as_str());
    text.append("</i> | <i>");
    text.append(status.as_str());
    text.append("</i>] ");
    append_link(&mut text, people_url.as_str(), event.user.display_name.as_str());
    text.append(" ");
    text.append(verb);
    text.append(" ");
    text.append(itype.as_str());
    text.append(" ");
    append_link(&mut text, browse_url.as_str(), event.issue.key.as_str());
    text.append(" [");
    text.append(event.issue.fields.project.name.as_str());
    text.append("]: <b>");
    text.append(event.issue.fields.summary.as_str());
    text.append("</b>");
    proof {
        assert(text@ =~= jira_msg(*event, event_type));
    }
    text
}

/// Handles one issue event: a loud message for a recognised event name,
/// nothing for anything else.
pub fn jira_handle(event: &JiraEvent) -> (r: Option<Message>)
    ensures
        match spec_jira_event_type(event.webhook_event@) {
            Some(t) => r matches Some(m) && m.text@ == jira_msg(*event, t) && m.loud,
            None => r is None,
        },
{
    let event_type = match jira_event_type(event.webhook_event.as_str()) {
        Some(t) => t,
        None => {
            return None;
        },
    };
    Some(Message { text: get_formatted_event(event, event_type), loud: true })
}

} // verus!
