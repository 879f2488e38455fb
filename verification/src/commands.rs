//! Slash commands and what the bot does for each of them.
use vstd::prelude::*;
use vstd::string::*;
use crate::config::{Config, RoleMap};
use crate::permissions::{
    lock_flags, lock_permissions, union_bits, unlock_flags, unlock_permissions, PermissionSet,
};
use crate::reply::{plain_reply, titled_reply, EmbedAuthor, Reply, ReplyView, Tint};
use crate::text::{decimal, decimal_text};

verus! {

/// The slash commands the bot answers.
#[derive(Clone, Debug)]
pub enum Commands {
    Ping,
    CreateRoleMessage,
    Purge { msg_cnt: u64 },
    Say { msg: String },
    Lock,
    Unlock,
    Tldr,
}

/// A command as plain values.
pub enum CommandsView {
    Ping,
    CreateRoleMessage,
    Purge { msg_cnt: u64 },
    Say { msg: Seq<char> },
    Lock,
    Unlock,
    Tldr,
}

impl View for Commands {
    type V = CommandsView;

    open spec fn view(&self) -> CommandsView {
        match self {
            Commands::Ping => CommandsView::Ping,
            Commands::CreateRoleMessage => CommandsView::CreateRoleMessage,
            Commands::Purge { msg_cnt } => CommandsView::Purge { msg_cnt: *msg_cnt },
            Commands::Say { msg } => CommandsView::Say { msg: msg@ },
            Commands::Lock => CommandsView::Lock,
            Commands::Unlock => CommandsView::Unlock,
            Commands::Tldr => CommandsView::Tldr,
        }
    }
}

/// Why a command was not carried out.
#[derive(Clone, Copy, Debug, PartialEq, Eq, Structural)]
pub enum CommandError {
    NotInGuild,
    InvalidChannel,
    InvalidArguments,
    UnknownCommand,
    NotGuildChannel,
    RoleNotFound,
}

/// The text of each error.
pub open spec fn error_text(e: CommandError) -> Seq<char> {
    match e {
        CommandError::NotInGuild => "Not in a guild!"@,
        CommandError::InvalidChannel => "Invalid channel id"@,
        CommandError::InvalidArguments => "Invalid arguments"@,
        CommandError::UnknownCommand => "Could not find the target command"@,
        CommandError::NotGuildChannel => "Not a guild channel"@,
        CommandError::RoleNotFound => "Could not find a requested role"@,
    }
}

impl CommandError {
    /// The text of the error.
    pub fn message(&self) -> (m: &'static str)
        ensures
            m@ == error_text(*self),
    {
        match self {
            CommandError::NotInGuild => "Not in a guild!",
            CommandError::InvalidChannel => "Invalid channel id",
            CommandError::InvalidArguments => "Invalid arguments",
            CommandError::UnknownCommand => "Could not find the target command",
            CommandError::NotGuildChannel => "Not a guild channel",
            CommandError::RoleNotFound => "Could not find a requested role",
        }
    }
}

/// Where and by whom a command was invoked.
#[derive(Clone, Debug)]
pub struct Invocation {
    pub guild_id: Option<u64>,
    pub channel_id: u64,
    pub user_name: String,
}

/// The bot's own user, as the `say` command shows it.
#[derive(Clone, Debug)]
pub struct BotProfile {
    pub name: String,
    pub avatar_url: Option<String>,
}

/// The first thing to do for a command.
#[derive(Clone, Debug)]
pub enum Start {
    /// Answer with the reply; nothing else.
    Respond(Reply),
    /// Give up with the error, without answering.
    Fail(CommandError),
    /// Answer with the reply, then give up with the error.
    Refuse(Reply, CommandError),
    /// Post the reaction-role message, then react to it with the role emojis.
    PostRoleMessage(Reply),
    /// In a guild channel, delete up to `limit` recent messages, then answer
    /// as `purge_plan` says; elsewhere do nothing.
    Purge { limit: u64 },
    /// Give the role exactly these permissions on the channel, and answer.
    SetPermissions { allow: PermissionSet, role: String, reply: Reply },
    /// Nothing to do.
    Nothing,
}

/// A `Start` as plain values.
pub enum StartView {
    Respond(ReplyView),
    Fail(CommandError),
    Refuse(ReplyView, CommandError),
    PostRoleMessage(ReplyView),
    Purge { limit: u64 },
    SetPermissions { allow: u64, role: Seq<char>, reply: ReplyView },
    Nothing,
}

impl View for Start {
    type V = StartView;

    open spec fn view(&self) -> StartView {
        match self {
            Start::Respond(r) => StartView::Respond(r@),
            Start::Fail(e) => StartView::Fail(*e),
            Start::Refuse(r, e) => StartView::Refuse(r@, *e),
            Start::PostRoleMessage(r) => StartView::PostRoleMessage(r@),
            Start::Purge { limit } => StartView::Purge { limit: *limit },
            Start::SetPermissions { allow, role, reply } => StartView::SetPermissions {
                allow: allow@,
                role: role@,
                reply: reply@,
            },
            Start::Nothing => StartView::Nothing,
        }
    }
}

/// The role whose permissions lock and unlock change.
pub open spec fn everyone_role() -> Seq<char> {
    "@everyone"@
}

/// `**<user>**<rest>`: the user's name in bold, followed by `rest`.
pub open spec fn bold_user(user: Seq<char>, rest: Seq<char>) -> Seq<char> {
    "**"@ + user + rest
}

/// The answer to `/say`: the message, under the bot's name and avatar.
pub open spec fn say_reply(bot: BotProfile, msg: Seq<char>) -> ReplyView {
    ReplyView {
        with_source: true,
        ephemeral: false,
        title: None,
        author: Some(
            (
                bot.name@,
                match bot.avatar_url {
                    Some(url) => url@,
                    None => Seq::empty(),
                },
            ),
        ),
        description: msg,
        tint: Tint::Purple,
    }
}

/// Whether carrying out the command reads the configuration: only
/// `role_message` in a guild does.
pub open spec fn needs_config(cmd: CommandsView, inv: Invocation) -> bool {
    cmd is CreateRoleMessage && inv.guild_id is Some
}

/// The configuration, if any, as a value.
pub open spec fn config_view(cfg: Option<&Config>) -> Option<Config> {
    match cfg {
        Some(c) => Some(*c),
        None => None,
    }
}

/// What the bot does first for a command.
pub open spec fn command_start(
    cmd: CommandsView,
    inv: Invocation,
    cfg: Option<Config>,
    bot: BotProfile,
    role_message: Seq<char>,
) -> StartView {
    match cmd {
        CommandsView::Ping => StartView::Respond(plain_reply(true, "Pong!"@, Tint::Purple)),
        CommandsView::CreateRoleMessage => {
            if inv.guild_id is None {
                StartView::Fail(CommandError::NotInGuild)
            } else if inv.channel_id != cfg.unwrap().reaction_roles.channel {
                StartView::Refuse(
                    titled_reply(
                        true,
                        "Wrong Channel!"@,
                        "You tried to create a reaction role message in the wrong channel!"@,
                        Tint::Red,
                    ),
                    CommandError::InvalidChannel,
                )
            } else {
                StartView::PostRoleMessage(
                    titled_reply(false, "Reaction Roles."@, role_message, Tint::Purple),
                )
            }
        },
        CommandsView::Purge { msg_cnt } => StartView::Purge { limit: msg_cnt },
        CommandsView::Say { msg } => StartView::Respond(say_reply(bot, msg)),
        CommandsView::Lock => StartView::SetPermissions {
            allow: union_bits(lock_flags()),
            role: everyone_role(),
            reply: plain_reply(
                false,
                bold_user(inv.user_name@, "** locked this channel!"@),
                Tint::Purple,
            ),
        },
        CommandsView::Unlock => StartView::SetPermissions {
            allow: union_bits(unlock_flags()),
            role: everyone_role(),
            reply: plain_reply(
                false,
                bold_user(inv.user_name@, "** unlocked this channel!"@),
                Tint::Purple,
            ),
        },
        CommandsView::Tldr => StartView::Nothing,
    }
}

fn bold(user: &str, rest: &str) -> (s: String)
    ensures
        s@ == bold_user(user@, rest@),
{
    String::from_str("**").concat(user).concat(rest)
}

impl Commands {
    /// What to do first to carry out the command. `role_message` is the
    /// text of the reaction-role message.
    /// The configuration is read only by `role_message` invoked in a guild,
    /// and must be there for it.
    pub fn start(
        &self,
        inv: &Invocation,
        cfg: Option<&Config>,
        bot: &BotProfile,
        role_message: &str,
    ) -> (s: Start)
        requires
            needs_config(self@, *inv) ==> cfg is Some,
        ensures
            s@ == command_start(self@, *inv, config_view(cfg), *bot, role_message@),
    {
        match self {
            Commands::Ping => Start::Respond(
                Reply::plain(true, String::from_str("Pong!"), Tint::Purple),
            ),
            Commands::CreateRoleMessage => {
                if inv.guild_id.is_none() {
                    Start::Fail(CommandError::NotInGuild)
                } else if inv.channel_id != cfg.unwrap().reaction_roles.channel {
                    Start::Refuse(
                        Reply::titled(
                            true,
                            String::from_str("Wrong Channel!"),
                            String::from_str(
                                "You tried to create a reaction role message in the wrong channel!",
                            ),
                            Tint::Red,
                        ),
                        CommandError::InvalidChannel,
                    )
                } else {
                    Start::PostRoleMessage(
                        Reply::titled(
                            false,
                            String::from_str("Reaction Roles."),
                            role_message.to_owned(),
                            Tint::Purple,
                        ),
                    )
                }
            },
            Commands::Purge { msg_cnt } => Start::Purge { limit: *msg_cnt },
            Commands::Say { msg } => {
                let icon = match &bot.avatar_url {
                    Some(url) => url.clone(),
                    None => String::new(),
                };
                let author = EmbedAuthor { name: bot.name.clone(), icon_url: icon };
                Start::Respond(
                    Reply {
                        with_source: true,
                        ephemeral: false,
                        title: None,
                        author: Some(author),
                        description: msg.clone(),
                        tint: Tint::Purple,
                    },
                )
            },
            Commands::Lock => Start::SetPermissions {
                allow: lock_permissions(),
                role: String::from_str("@everyone"),
                reply: Reply::plain(
                    false,
                    bold(inv.user_name.as_str(), "** locked this channel!"),
                    Tint::Purple,
                ),
            },
            Commands::Unlock => Start::SetPermissions {
                allow: unlock_permissions(),
                role: String::from_str("@everyone"),
                reply: Reply::plain(
                    false,
                    bold(inv.user_name.as_str(), "** unlocked this channel!"),
                    Tint::Purple,
                ),
            },
            Commands::Tldr => Start::Nothing,
        }
    }
}

/// How many messages to purge once the channel is known: a purge deletes
/// messages only in a guild channel.
pub fn purge_limit(channel_is_guild: bool, limit: u64) -> (r: Option<u64>)
    ensures
        r == (if channel_is_guild { Some(limit) } else { None::<u64> }),
{
    if channel_is_guild {
        Some(limit)
    } else {
        None
    }
}

/// The answer after a purge: who purged how many messages.
pub open spec fn purge_reply(user: Seq<char>, purged: nat) -> ReplyView {
    plain_reply(
        false,
        bold_user(user, "** purged "@ + decimal(purged) + " messages!"@),
        Tint::Blue,
    )
}

/// The answer after `user` purged `purged` messages.
pub fn purge_summary(user: &str, purged: usize) -> (r: Reply)
    ensures
        r@ == purge_reply(user@, purged as nat),
{
    let count = decimal_text(purged as u64);
    let rest = String::from_str("** purged ").concat(count.as_str()).concat(" messages!");
    Reply::plain(false, bold(user, rest.as_str()), Tint::Blue)
}

/// What a purge does with the messages it fetched: it deletes all of them,
/// in the order fetched, and then reports how many it deleted.
pub fn purge_plan(user: &str, fetched: Vec<u64>) -> (plan: (Vec<u64>, Reply))
    ensures
        plan.0@ == fetched@,
        plan.1@ == purge_reply(user@, fetched@.len()),
{
    let reply = purge_summary(user, fetched.len());
    (fetched, reply)
}

/// A custom emoji of a guild.
#[derive(Clone, Debug)]
pub struct GuildEmoji {
    pub id: u64,
    pub name: String,
    pub animated: bool,
}

/// Whether the role map grants a role for the emoji.
pub open spec fn grants_role(roles: Map<Seq<char>, Seq<char>>, emoji: GuildEmoji) -> bool {
    roles.contains_key(emoji.name@)
}

/// The guild emojis that grant a role, in the guild's order: the bot reacts
/// with each of them on the reaction-role message.
pub fn role_message_reactions(emojis: &Vec<GuildEmoji>, roles: &RoleMap) -> (r: Vec<GuildEmoji>)
    ensures
        r@ == emojis@.filter(|e: GuildEmoji| grants_role(roles@, e)),
{
    let ghost keep = |e: GuildEmoji| grants_role(roles@, e);
    let mut out: Vec<GuildEmoji> = Vec::new();
    let mut i: usize = 0;
    while i < emojis.len()
        invariant
            i <= emojis.len(),
            keep == (|e: GuildEmoji| grants_role(roles@, e)),
            out@ == emojis@.take(i as int).filter(keep),
        decreases emojis.len() - i,
    {
        let e = &emojis[i];
        proof {
            reveal(Seq::filter);
            assert(emojis@.take(i + 1).drop_last() =~= emojis@.take(i as int));
        }
        if roles.contains_key(e.name.as_str()) {
            out.push(GuildEmoji { id: e.id, name: e.name.clone(), animated: e.animated });
        }
        i = i + 1;
    }
    assert(emojis@.take(emojis.len() as int) =~= emojis@);
    out
}

} // verus!
