//! Shared interaction answers and the permission overwrite of lock/unlock.
use vstd::prelude::*;
use vstd::string::*;
use crate::commands::CommandError;
use crate::permissions::{all_flags, overwrite_for_role, PermissionOverwrite, PermissionSet};
use crate::reply::{Reply, ReplyView, Tint};

verus! {

/// The answer to a command invoked with arguments it cannot use.
pub open spec fn invalid_arguments_reply() -> ReplyView {
    ReplyView {
        with_source: true,
        ephemeral: true,
        title: Some("Invalid arguments!"@),
        author: None,
        description: "Please make sure you provided the correct arguments for the command!"@,
        tint: Tint::Red,
    }
}

/// The answer to a command invoked with arguments it cannot use.
pub fn invalid_arguments() -> (r: Reply)
    ensures
        r@ == invalid_arguments_reply(),
{
    Reply {
        with_source: true,
        ephemeral: true,
        title: Some(String::from_str("Invalid arguments!")),
        author: None,
        description: String::from_str(
            "Please make sure you provided the correct arguments for the command!",
        ),
        tint: Tint::Red,
    }
}

/// What is known of the channel a permission change is for.
#[derive(Clone, Copy, Debug, PartialEq, Eq, Structural)]
pub enum ChannelLookup {
    /// The channel is not a guild channel.
    NotGuildChannel,
    /// A guild channel whose guild is not in the cache.
    GuildUncached,
    /// A guild channel of a cached guild, and the id of the role looked up
    /// by name in it, if the guild has such a role.
    GuildCached { role_id: Option<u64> },
}

/// The overwrite to create so that the role gets exactly `perms` on the
/// channel: an error outside guild channels or for an unknown role, and
/// nothing to do when the guild is not cached.
pub fn apply_permissions(channel: ChannelLookup, perms: PermissionSet) -> (r: Result<
    Option<PermissionOverwrite>,
    CommandError,
>)
    ensures
        match channel {
            ChannelLookup::NotGuildChannel => r == Err::<Option<PermissionOverwrite>, CommandError>(
                CommandError::NotGuildChannel,
            ),
            ChannelLookup::GuildUncached => r == Ok::<Option<PermissionOverwrite>, CommandError>(
                None,
            ),
            ChannelLookup::GuildCached { role_id: None } => r == Err::<
                Option<PermissionOverwrite>,
                CommandError,
            >(CommandError::RoleNotFound),
            ChannelLookup::GuildCached { role_id: Some(id) } => r == Ok::<
                Option<PermissionOverwrite>,
                CommandError,
            >(Some(PermissionOverwrite { allow: perms@, deny: !perms@ & all_flags(), role_id: id })),
        },
{
    match channel {
        ChannelLookup::NotGuildChannel => Err(CommandError::NotGuildChannel),
        ChannelLookup::GuildUncached => Ok(None),
        ChannelLookup::GuildCached { role_id: None } => Err(CommandError::RoleNotFound),
        ChannelLookup::GuildCached { role_id: Some(id) } => Ok(Some(overwrite_for_role(perms, id))),
    }
}

} // verus!
