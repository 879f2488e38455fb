//! Automatic threads: every message in a thread channel opens a public
//! thread named after the message.
use vstd::prelude::*;
use vstd::string::*;
use crate::config::{Config, ThreadChannels};
use crate::reply::{plain_reply, Reply, Tint};
use crate::text::{trim, trimmed};

verus! {

/// Whether `regex::Regex::new` accepts the pattern.
pub uninterp spec fn regex_pattern_accepted(pattern: Seq<char>) -> bool;

/// What `Regex::replace_all(text, "")` leaves of `text` for a regex built
/// from `pattern`.
pub uninterp spec fn regex_matches_removed(pattern: Seq<char>, text: Seq<char>) -> Seq<char>;

/// The pattern of a custom emoji in message text, such as `<:ferris:1234>`.
pub open spec fn custom_emoji_pattern() -> Seq<char> {
    "<:.+:[0-9]+>"@
}

/// Whether the text holds no `<`, the character that opens a custom emoji.
pub open spec fn lacks_emoji_opener(text: Seq<char>) -> bool {
    !text.contains('<')
}

/// Compiles `pattern` with `regex::Regex::new` and deletes every match of it
/// from `text` with `Regex::replace_all` and an empty replacement.
/// Claimed of the regex crate: the result is named by `regex_pattern_accepted`
/// and `regex_matches_removed`; the custom emoji pattern compiles; a text
/// without `<` has no match of that pattern (each match starts with `<`) and
/// comes back unchanged. Nothing else is claimed of what a match is.
#[verifier::external_body]
fn remove_pattern_matches(pattern: &str, text: &str) -> (out: Option<String>)
    ensures
        out is Some == regex_pattern_accepted(pattern@),
        pattern@ == custom_emoji_pattern() ==> out is Some,
        out matches Some(s) ==> s@ == regex_matches_removed(pattern@, text@),
        out matches Some(s) ==> (pattern@ == custom_emoji_pattern() && lacks_emoji_opener(text@)
            ==> s@ == text@),
{
    match regex::Regex::new(pattern) {
        Ok(re) => Some(re.replace_all(text, "").into_owned()),
        Err(_) => None,
    }
}

/// The text that opens a thread name when a message has no text of its own.
pub open spec fn unnamed_thread_prefix() -> Seq<char> {
    "Message from "@
}

/// The thread name for the message text left after emojis are removed:
/// that text, or "Message from <author>" when nothing is left.
pub open spec fn thread_name_from(stripped: Seq<char>, author: Seq<char>) -> Seq<char> {
    if stripped.len() == 0 {
        unnamed_thread_prefix() + author
    } else {
        stripped
    }
}

/// The name of the thread opened for a message: its trimmed text without
/// custom emojis, or "Message from <author>" when that is empty.
pub open spec fn thread_name(content: Seq<char>, author: Seq<char>) -> Seq<char> {
    thread_name_from(regex_matches_removed(custom_emoji_pattern(), trimmed(content)), author)
}

/// The thread name for message text from which the emojis are already gone.
pub fn name_thread(stripped: &str, author: &str) -> (name: String)
    ensures
        name@ == thread_name_from(stripped@, author@),
{
    if stripped.is_empty() {
        String::from_str("Message from ").concat(author)
    } else {
        stripped.to_owned()
    }
}

/// The name of the thread opened for a message with this text and author.
pub fn create_thread_name(content: &str, author: &str) -> (name: String)
    ensures
        name@ == thread_name(content@, author@),
        lacks_emoji_opener(trimmed(content@)) ==> name@ == thread_name_from(
            trimmed(content@),
            author@,
        ),
{
    let pattern = "<:.+:[0-9]+>";
    let text = trim(content);
    let stripped = remove_pattern_matches(pattern, text.as_str());
    let stripped = stripped.unwrap();
    name_thread(stripped.as_str(), author)
}

/// A thread to open under a message, with the message the bot posts in it.
#[derive(Clone, Debug)]
pub struct NewThread {
    pub name: String,
    pub greeting: Reply,
}

impl ThreadChannels {
    /// Whether messages in the channel of this name open threads.
    pub fn opens_thread_in(&self, channel_name: &str) -> (b: bool)
        ensures
            b == self.channels@.contains(channel_name@),
    {
        self.channels.contains(channel_name)
    }
}

/// Whether a message in this channel (given by name, `None` for a channel
/// outside a guild) opens a thread.
pub open spec fn opens_thread(cfg: Config, channel_name: Option<&str>) -> bool {
    match channel_name {
        Some(name) => cfg.thread_channels.channels@.contains(name@),
        None => false,
    }
}

/// The thread to open for a new message: only messages in a configured
/// guild channel get one, named by `create_thread_name` and greeted with the
/// configured creation message.
pub fn create_thread(cfg: &Config, channel_name: Option<&str>, content: &str, author: &str) -> (t:
    Option<NewThread>)
    ensures
        t is Some == opens_thread(*cfg, channel_name),
        t matches Some(t) ==> t.name@ == thread_name(content@, author@) && t.greeting@
            == plain_reply(false, cfg.thread_channels.creation_message@, Tint::Blue),
{
    match channel_name {
        Some(name) => {
            if cfg.thread_channels.opens_thread_in(name) {
                let greeting = Reply::plain(
                    false,
                    cfg.thread_channels.creation_message.clone(),
                    Tint::Blue,
                );
                Some(NewThread { name: create_thread_name(content, author), greeting })
            } else {
                None
            }
        },
        None => None,
    }
}

} // verus!
