//! Properties that relate several of the bot's decisions.
use vstd::prelude::*;
use vstd::string::*;
use crate::commands::{
    command_start, grants_role, BotProfile, CommandError, CommandsView, GuildEmoji, Invocation,
    StartView,
};
use crate::config::Config;
use crate::handler::{command_catalog, command_for, OptionKind, OptionValueView};
use crate::reply::Tint;
use crate::permissions::{
    all_flags, flag_bit, has_flag, lock_flags, union_bits, unlock_flags, Permission,
};
use crate::reaction::{member_role_request, reaction_role, role_request, Reaction, ReactionEmoji};
use crate::thread_channel::{thread_name, thread_name_from, unnamed_thread_prefix};

verus! {

/// Whether some registered slash command has this name.
pub open spec fn registered(name: Seq<char>) -> bool {
    exists|i: int| 0 <= i < command_catalog().len() && #[trigger] command_catalog()[i].name == name
}

/// An interaction is turned into a command (or refused for its arguments)
/// exactly when its name is one of the registered slash commands; every
/// other name is an unknown command.
pub proof fn lemma_registered_names_are_recognized(name: Seq<char>, first: Option<OptionValueView>)
    ensures
        registered(name) <==> !(command_for(name, first) matches Err(CommandError::UnknownCommand)),
{
    let c = command_catalog();
    if registered(name) {
        let i = choose|i: int| 0 <= i < c.len() && #[trigger] c[i].name == name;
        assert(0 <= i < 7);
    } else {
        assert(c[0].name == "ping"@);
        assert(c[1].name == "role_message"@);
        assert(c[2].name == "purge"@);
        assert(c[3].name == "say"@);
        assert(c[4].name == "lock"@);
        assert(c[5].name == "unlock"@);
        assert(c[6].name == "tldr"@);
    }
}

/// Whether an option value fits what a registered command declares: any
/// value for a command without options, an integer for an integer option,
/// a string for a string option.
pub open spec fn fits_declared_option(index: int, first: Option<OptionValueView>) -> bool {
    match command_catalog()[index].option {
        None => true,
        Some(o) => match (o.kind, first) {
            (OptionKind::Integer, Some(OptionValueView::Integer(_))) => true,
            (OptionKind::Text, Some(OptionValueView::Text(_))) => true,
            _ => false,
        },
    }
}

/// A registered command invoked with a value of the type its option
/// declares always becomes a command.
pub proof fn lemma_registered_commands_parse(index: int, first: Option<OptionValueView>)
    requires
        0 <= index < command_catalog().len(),
        fits_declared_option(index, first),
    ensures
        command_for(command_catalog()[index].name, first) is Ok,
{
    reveal_strlit("ping");
    reveal_strlit("role_message");
    reveal_strlit("purge");
    reveal_strlit("say");
    reveal_strlit("lock");
    reveal_strlit("unlock");
    reveal_strlit("tldr");
    let c = command_catalog();
    assert(c[2].name == "purge"@);
    assert(c[3].name == "say"@);
    assert("purge"@ != "ping"@) by {
        assert("purge"@[1] != "ping"@[1]);
    }
    assert("purge"@ != "role_message"@) by {
        assert("purge"@.len() != "role_message"@.len());
    }
    assert("say"@ != "ping"@) by {
        assert("say"@.len() != "ping"@.len());
    }
    assert("say"@ != "role_message"@) by {
        assert("say"@.len() != "role_message"@.len());
    }
    assert("say"@ != "purge"@) by {
        assert("say"@.len() != "purge"@.len());
    }
}

/// Every emoji the bot reacts with on the reaction-role message grants a
/// role: a member who clicks it in the reaction-role channel is given the
/// role that the configuration maps to the emoji's name.
pub proof fn lemma_role_message_emojis_grant_roles(
    cfg: Config,
    emojis: Seq<GuildEmoji>,
    k: int,
    reaction: Reaction,
)
    requires
        0 <= k < emojis.filter(|e: GuildEmoji| grants_role(cfg.reaction_roles.role_map@, e)).len(),
        reaction.channel_id == cfg.reaction_roles.channel,
        reaction.emoji matches ReactionEmoji::Custom { name: Some(n), .. } && n@ == emojis.filter(
            |e: GuildEmoji| grants_role(cfg.reaction_roles.role_map@, e),
        )[k].name@,
    ensures
        reaction_role(cfg, reaction) == Some(
            cfg.reaction_roles.role_map@[emojis.filter(
                |e: GuildEmoji| grants_role(cfg.reaction_roles.role_map@, e),
            )[k].name@],
        ),
{
    let keep = |e: GuildEmoji| grants_role(cfg.reaction_roles.role_map@, e);
    emojis.filter_lemma(keep);
    assert(keep(emojis.filter(keep)[k]));
}

/// A locked channel stays visible and readable, but nobody can send
/// messages in it.
pub proof fn lemma_lock_keeps_channel_readable()
    ensures
        has_flag(union_bits(lock_flags()), Permission::ViewChannel),
        has_flag(union_bits(lock_flags()), Permission::ReadMessageHistory),
        !has_flag(union_bits(lock_flags()), Permission::SendMessages),
{
    lemma_lock_bits();
    assert((0x400u64 | 0x1_0000u64) & 0x400u64 != 0) by (bit_vector);
    assert((0x400u64 | 0x1_0000u64) & 0x1_0000u64 != 0) by (bit_vector);
    assert((0x400u64 | 0x1_0000u64) & 0x800u64 == 0) by (bit_vector);
}

/// An unlocked channel is public: everyone can see it and send messages in
/// it, and it grants everything a locked channel grants.
pub proof fn lemma_unlock_opens_channel()
    ensures
        has_flag(union_bits(unlock_flags()), Permission::ViewChannel),
        has_flag(union_bits(unlock_flags()), Permission::SendMessages),
        union_bits(lock_flags()) & !union_bits(unlock_flags()) == 0,
{
    lemma_lock_bits();
    lemma_unlock_bits();
    assert(0x68_0005_CC40u64 & 0x400u64 != 0) by (bit_vector);
    assert(0x68_0005_CC40u64 & 0x800u64 != 0) by (bit_vector);
    assert((0x400u64 | 0x1_0000u64) & !0x68_0005_CC40u64 == 0) by (bit_vector);
}

proof fn lemma_union_push(s: Seq<Permission>, p: Permission)
    ensures
        union_bits(s.push(p)) == union_bits(s) | flag_bit(p),
{
    assert(s.push(p).drop_last() =~= s);
}

proof fn lemma_lock_bits()
    ensures
        union_bits(lock_flags()) == 0x400u64 | 0x1_0000u64,
{
    let e = Seq::<Permission>::empty();
    lemma_union_push(e, Permission::ViewChannel);
    lemma_union_push(e.push(Permission::ViewChannel), Permission::ReadMessageHistory);
    assert(lock_flags() =~= e.push(Permission::ViewChannel).push(Permission::ReadMessageHistory));
    assert(0u64 | 0x400u64 == 0x400u64) by (bit_vector);
}

proof fn lemma_unlock_bits()
    ensures
        union_bits(unlock_flags()) == 0x68_0005_CC40u64,
{
    let s0 = Seq::<Permission>::empty();
    let s1 = s0.push(Permission::ViewChannel);
    let s2 = s1.push(Permission::ReadMessageHistory);
    let s3 = s2.push(Permission::CreatePublicThreads);
    let s4 = s3.push(Permission::SendMessages);
    let s5 = s4.push(Permission::SendMessagesInThreads);
    let s6 = s5.push(Permission::EmbedLinks);
    let s7 = s6.push(Permission::AttachFiles);
    let s8 = s7.push(Permission::AddReactions);
    let s9 = s8.push(Permission::UseExternalEmojis);
    let s10 = s9.push(Permission::UseExternalStickers);
    assert(unlock_flags() =~= s10);
    lemma_union_push(s0, Permission::ViewChannel);
    lemma_union_push(s1, Permission::ReadMessageHistory);
    lemma_union_push(s2, Permission::CreatePublicThreads);
    lemma_union_push(s3, Permission::SendMessages);
    lemma_union_push(s4, Permission::SendMessagesInThreads);
    lemma_union_push(s5, Permission::EmbedLinks);
    lemma_union_push(s6, Permission::AttachFiles);
    lemma_union_push(s7, Permission::AddReactions);
    lemma_union_push(s8, Permission::UseExternalEmojis);
    lemma_union_push(s9, Permission::UseExternalStickers);
    assert(((((((((((0u64 | 0x400u64) | 0x1_0000u64) | 0x8_0000_0000u64) | 0x800u64)
        | 0x40_0000_0000u64) | 0x4000u64) | 0x8000u64) | 0x40u64) | 0x4_0000u64)
        | 0x20_0000_0000u64) == 0x68_0005_CC40u64) by (bit_vector);
}

/// The overwrite of a permission set splits serenity's flags in two: what
/// it allows and what it denies never overlap, and together they are every
/// flag.
pub proof fn lemma_overwrite_partitions_flags(allow: u64)
    requires
        allow & !all_flags() == 0,
    ensures
        allow & (!allow & all_flags()) == 0,
        allow | (!allow & all_flags()) == all_flags(),
{
    let a = all_flags();
    assert(allow & (!allow & a) == 0) by (bit_vector);
    assert(allow & !a == 0 ==> allow | (!allow & a) == a) by (bit_vector);
}

/// The permissions that lock and unlock grant are all flags serenity knows.
pub proof fn lemma_granted_flags_are_known()
    ensures
        union_bits(lock_flags()) & !all_flags() == 0,
        union_bits(unlock_flags()) & !all_flags() == 0,
{
    lemma_lock_bits();
    lemma_unlock_bits();
    assert((0x400u64 | 0x1_0000u64) & !0x1FF_FFFF_FFFFu64 == 0) by (bit_vector);
    assert(0x68_0005_CC40u64 & !0x1FF_FFFF_FFFFu64 == 0) by (bit_vector);
}

/// Every thread gets a name: a message with no text left after trimming
/// and removing emojis is named after its author.
pub proof fn lemma_thread_name_never_empty(content: Seq<char>, author: Seq<char>)
    ensures
        thread_name(content, author).len() > 0,
{
    reveal_strlit("Message from ");
    assert(unnamed_thread_prefix().len() == 13);
}

/// The reaction-role message is posted only in the configured role
/// channel: in a guild, `/role_message` posts it exactly when it is invoked
/// in that channel, and in any other channel it is refused as an invalid
/// channel.
pub proof fn lemma_role_message_only_in_role_channel(
    inv: Invocation,
    cfg: Config,
    bot: BotProfile,
    role_message: Seq<char>,
)
    requires
        inv.guild_id is Some,
    ensures
        command_start(CommandsView::CreateRoleMessage, inv, Some(cfg), bot, role_message) is PostRoleMessage
            <==> inv.channel_id == cfg.reaction_roles.channel,
        inv.channel_id != cfg.reaction_roles.channel ==> (command_start(
            CommandsView::CreateRoleMessage,
            inv,
            Some(cfg),
            bot,
            role_message,
        ) matches StartView::Refuse(_, e) && e == CommandError::InvalidChannel),
        inv.channel_id == cfg.reaction_roles.channel ==> (command_start(
            CommandsView::CreateRoleMessage,
            inv,
            Some(cfg),
            bot,
            role_message,
        ) matches StartView::PostRoleMessage(r) && r.description == role_message),
{
}

/// `/say` speaks publicly as the bot: the answer is visible to everyone,
/// holds exactly the given message, and is shown under the bot's name.
pub proof fn lemma_say_is_public(
    msg: Seq<char>,
    inv: Invocation,
    cfg: Option<Config>,
    bot: BotProfile,
    role_message: Seq<char>,
)
    ensures
        command_start(CommandsView::Say { msg }, inv, cfg, bot, role_message) matches StartView::Respond(r)
            && !r.ephemeral && r.with_source && r.description == msg && r.tint == Tint::Purple
            && (r.author matches Some(a) && a.0 == bot.name@),
{
}

/// Reactions outside the reaction-role channel never give or take a role.
pub proof fn lemma_reactions_outside_role_channel_do_nothing(cfg: Config, reaction: Reaction)
    requires
        reaction.channel_id != cfg.reaction_roles.channel,
    ensures
        reaction_role(cfg, reaction) is None,
        role_request(cfg, reaction) is None,
        member_role_request(cfg, reaction) is None,
{
}

/// A named custom emoji that the role map knows, reacted by a member in the
/// reaction-role channel of a guild, asks for exactly the mapped role, in
/// that guild, for that member.
pub proof fn lemma_mapped_reaction_requests_its_role(
    cfg: Config,
    reaction: Reaction,
    name: String,
    guild: u64,
    user: u64,
)
    requires
        reaction.channel_id == cfg.reaction_roles.channel,
        reaction.emoji matches ReactionEmoji::Custom { name: Some(n), .. } && n == name,
        cfg.reaction_roles.role_map@.contains_key(name@),
        reaction.guild_id == Some(guild),
        reaction.user_id == Some(user),
    ensures
        member_role_request(cfg, reaction) == Some(
            (guild, user, cfg.reaction_roles.role_map@[name@]),
        ),
{
}

/// A thread is named after its message text whenever any text is left:
/// the author fallback is used only when nothing is left.
pub proof fn lemma_thread_named_after_text(stripped: Seq<char>, author: Seq<char>)
    ensures
        stripped.len() > 0 ==> thread_name_from(stripped, author) == stripped,
        stripped.len() == 0 ==> thread_name_from(stripped, author) == "Message from "@ + author,
{
}

/// `/purge n` keeps the requested count: a non-negative count is kept as
/// it is, whatever its size, and every count is carried over bit for bit.
pub proof fn lemma_purge_keeps_count(n: i64)
    ensures
        command_for("purge"@, Some(OptionValueView::Integer(n))) == Ok::<CommandsView, CommandError>(
            CommandsView::Purge { msg_cnt: n as u64 },
        ),
        0 <= n ==> (command_for("purge"@, Some(OptionValueView::Integer(n))) matches Ok(
            CommandsView::Purge { msg_cnt },
        ) && msg_cnt == n),
{
    reveal_strlit("ping");
    reveal_strlit("role_message");
    reveal_strlit("purge");
    assert("purge"@ != "ping"@) by {
        assert("purge"@[1] != "ping"@[1]);
    }
    assert("purge"@ != "role_message"@) by {
        assert("purge"@.len() != "role_message"@.len());
    }
}

} // verus!
