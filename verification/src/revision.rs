//! Revision enrichment: the query URL for one revision and the extraction of
//! (author, comment, parent revision) from the wiki API's reply. The
//! transport call itself lives outside the library; every failure collapses
//! to nothing and the caller renders a degraded message.
use vstd::prelude::*;
use vstd::string::*;

use crate::json_tree::{
    JsonNode, spec_get, spec_at, spec_has_key, spec_is_empty, spec_len, spec_text_of,
};

verus! {

/// Revision context fetched on demand: author, comment and the parent
/// revision id, each as the feed's textual reading.
pub struct RevInfo {
    pub user: String,
    pub comment: String,
    pub parent_id: String,
}

/// The query URL that asks the wiki API for one revision, bounded on both
/// sides by the same revision id. The title is embedded as given.
pub open spec fn spec_revision_query_url(title: Seq<char>, rev_id: Seq<char>) -> Seq<char> {
    "https://psychonautwiki.org/w/api.php?action=query&prop=revisions&titles="@ + title
        + "&rvprop=timestamp%7Cuser%7Ccomment%7Ccontent%7Cids&rvstartid="@ + rev_id + "&rvendid="@
        + rev_id + "&format=json"@
}

pub fn revision_query_url(title: &str, rev_id: &str) -> (r: String)
    ensures
        r@ == spec_revision_query_url(title@, rev_id@),
{
    let mut r =
        "https://psychonautwiki.org/w/api.php?action=query&prop=revisions&titles=".to_owned();
    r.append(title);
    r.append("&rvprop=timestamp%7Cuser%7Ccomment%7Ccontent%7Cids&rvstartid=");
    r.append(rev_id);
    r.append("&rvendid=");
    r.append(rev_id);
    r.append("&format=json");
    proof {
        assert(r@ =~= spec_revision_query_url(title@, rev_id@));
    }
    r
}

/// The key under which the one returned page sits; an empty key when the
/// reply's page set is not an object with an entry.
pub open spec fn spec_page_key(pages: JsonNode) -> Seq<char> {
    match pages {
        JsonNode::Obj(entries) => if entries@.len() > 0 {
            entries@[0].0@
        } else {
            Seq::empty()
        },
        _ => Seq::empty(),
    }
}

/// What the reply to a revision query yields: nothing when the page is
/// reported as not found (the sentinel key "-1"), when not exactly one page
/// came back, or when that page carries no first revision; otherwise the
/// textual readings of the revision's user, comment and parent id.
pub open spec fn spec_extract_revision_info(data: JsonNode) -> Option<
    (Seq<char>, Seq<char>, Seq<char>),
> {
    let pages = spec_get(spec_get(data, "query"@), "pages"@);
    if spec_has_key(pages, "-1"@) || spec_len(pages) != 1 {
        None
    } else {
        let results = spec_at(spec_get(spec_get(pages, spec_page_key(pages)), "revisions"@), 0);
        if spec_is_empty(results) {
            None
        } else {
            Some(
                (
                    spec_text_of(spec_get(results, "user"@)),
                    spec_text_of(spec_get(results, "comment"@)),
                    spec_text_of(spec_get(results, "parentid"@)),
                ),
            )
        }
    }
}

/// Extracts the revision context from a decoded reply.
pub fn extract_revision_info(data: &JsonNode) -> (r: Option<RevInfo>)
    ensures
        match r {
            Some(info) => spec_extract_revision_info(*data) == Some(
                (info.user@, info.comment@, info.parent_id@),
            ),
            None => spec_extract_revision_info(*data) is None,
        },
{
    let pages = match data.get2("query", "pages") {
        Some(p) => p,
        None => {
            return None;
        },
    };
    if pages.has_key("-1") || pages.len() != 1 {
        return None;
    }
    let key: String = match pages {
        JsonNode::Obj(entries) => {
            if entries.len() > 0 {
                entries[0].0.clone()
            } else {
                String::new()
            }
        },
        _ => String::new(),
    };
    let results = match pages.get(key.as_str()) {
        Some(node) => match node.get("revisions") {
            Some(revs) => revs.at(0),
            None => None,
        },
        None => None,
    };
    match results {
        Some(res) => {
            if res.is_empty() {
                None
            } else {
                Some(
                    RevInfo {
                        user: res.get_text("user"),
                        comment: res.get_text("comment"),
                        parent_id: res.get_text("parentid"),
                    },
                )
            }
        },
        None => None,
    }
}

} // verus!
