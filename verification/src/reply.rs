//! Embed replies that the bot posts in answer to interactions and in new
//! threads.
use vstd::prelude::*;

verus! {

/// Embed colours the bot uses (serenity's `Colour::PURPLE`, `RED`, `BLUE`).
#[derive(Clone, Copy, Debug, PartialEq, Eq, Structural)]
pub enum Tint {
    Purple,
    Red,
    Blue,
}

/// Author line of an embed.
#[derive(Clone, Debug)]
pub struct EmbedAuthor {
    pub name: String,
    pub icon_url: String,
}

/// An interaction response (or a message) holding one embed.
#[derive(Clone, Debug)]
pub struct Reply {
    /// The response kind is set to `ChannelMessageWithSource` explicitly.
    pub with_source: bool,
    /// Only the invoking user sees the response.
    pub ephemeral: bool,
    pub title: Option<String>,
    pub author: Option<EmbedAuthor>,
    pub description: String,
    pub tint: Tint,
}

/// The content of a `Reply`, as plain text values.
pub struct ReplyView {
    pub with_source: bool,
    pub ephemeral: bool,
    pub title: Option<Seq<char>>,
    pub author: Option<(Seq<char>, Seq<char>)>,
    pub description: Seq<char>,
    pub tint: Tint,
}

impl View for Reply {
    type V = ReplyView;

    open spec fn view(&self) -> ReplyView {
        ReplyView {
            with_source: self.with_source,
            ephemeral: self.ephemeral,
            title: match self.title {
                Some(t) => Some(t@),
                None => None,
            },
            author: match self.author {
                Some(a) => Some((a.name@, a.icon_url@)),
                None => None,
            },
            description: self.description@,
            tint: self.tint,
        }
    }
}

/// A reply with a description only.
pub open spec fn plain_reply(with_source: bool, description: Seq<char>, tint: Tint) -> ReplyView {
    ReplyView { with_source, ephemeral: false, title: None, author: None, description, tint }
}

/// A reply with a title and a description.
pub open spec fn titled_reply(
    ephemeral: bool,
    title: Seq<char>,
    description: Seq<char>,
    tint: Tint,
) -> ReplyView {
    ReplyView {
        with_source: false,
        ephemeral,
        title: Some(title),
        author: None,
        description,
        tint,
    }
}

impl Reply {
    /// A reply with a description only.
    pub fn plain(with_source: bool, description: String, tint: Tint) -> (r: Reply)
        ensures
            r@ == plain_reply(with_source, description@, tint),
    {
        Reply { with_source, ephemeral: false, title: None, author: None, description, tint }
    }

    /// A reply with a title and a description.
    pub fn titled(ephemeral: bool, title: String, description: String, tint: Tint) -> (r: Reply)
        ensures
            r@ == titled_reply(ephemeral, title@, description@, tint),
    {
        Reply { with_source: false, ephemeral, title: Some(title), author: None, description, tint }
    }
}

} // verus!
