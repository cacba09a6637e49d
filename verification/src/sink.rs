//! The notification sink adapter: per-source immutable configuration and the
//! fully determined delivery request it produces for the chat API.
use vstd::prelude::*;
use vstd::string::*;

verus! {

/// The markup dialect a source's messages are rendered for.
#[derive(Clone, Copy, PartialEq, Eq, Structural, Debug)]
pub enum ParseMode {
    Plain,
    Markdown,
    Html,
}

/// A rendered notification: its text and whether delivery should trigger the
/// recipient's attention signal.
pub struct Message {
    pub text: String,
    pub loud: bool,
}

/// The one destination channel of the relay.
pub const DEFAULT_CHANNEL_ID: i64 = -1001050593583;

/// Per-source immutable configuration: display label, markup dialect, fixed
/// destination channel.
pub struct SourceIdentity {
    pub name: String,
    pub parse_mode: ParseMode,
    pub channel_id: i64,
}

/// A fully determined delivery request for the chat API.
pub struct SinkRequest {
    pub channel_id: i64,
    pub text: String,
    pub parse_mode: ParseMode,
    pub disable_preview: bool,
    pub disable_notification: bool,
}

/// The banner-prefixed text of a delivery.
pub open spec fn banner_text(name: Seq<char>, msg: Seq<char>) -> Seq<char> {
    "\u{2942} "@ + name + " \u{27f9} "@ + msg
}

impl SourceIdentity {
    pub fn new(name: &str, parse_mode: ParseMode) -> (r: SourceIdentity)
        ensures
            r.name@ == name@,
            r.parse_mode == parse_mode,
            r.channel_id == DEFAULT_CHANNEL_ID,
    {
        SourceIdentity { name: name.to_owned(), parse_mode, channel_id: DEFAULT_CHANNEL_ID }
    }

    /// Builds the delivery request: banner-prefixed text, the fixed channel,
    /// the source's parse mode, link preview always disabled, notification
    /// sound disabled exactly when the message is silent.
    pub fn emit_request(&self, msg: &Message) -> (r: SinkRequest)
        ensures
            r.text@ == banner_text(self.name@, msg.text@),
            r.channel_id == self.channel_id,
            r.parse_mode == self.parse_mode,
            r.disable_preview,
            r.disable_notification == !msg.loud,
    {
        let mut text = "\u{2942} ".to_owned();
        text.append(self.name.as_str());
        text.append(" \u{27f9} ");
        text.append(msg.text.as_str());
        proof {
            assert(text@ =~= banner_text(self.name@, msg.text@));
        }
        SinkRequest {
            channel_id: self.channel_id,
            text,
            parse_mode: self.parse_mode,
            disable_preview: true,
            disable_notification: !msg.loud,
        }
    }
}

} // verus!
