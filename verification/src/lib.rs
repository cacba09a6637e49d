//! A notification relay's verified core: it classifies change events from a
//! wiki feed, a code host, an issue tracker and a payment provider, enriches
//! two wiki sub-cases with revision context, and renders correctly escaped
//! notification strings for a single chat channel.
pub mod github;
pub mod jira;
pub mod json_tree;
pub mod laws;
pub mod paypal;
pub mod percent;
pub mod revision;
pub mod sink;
pub mod text;
pub mod wiki;
