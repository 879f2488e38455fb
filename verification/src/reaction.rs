//! Reaction roles: reacting with a configured emoji in the role channel
//! grants the mapped role, removing the reaction takes it away again.
use vstd::prelude::*;
use crate::config::Config;

verus! {

/// The emoji of a reaction.
#[derive(Clone, Debug)]
pub enum ReactionEmoji {
    /// A custom guild emoji.
    Custom { animated: bool, id: u64, name: Option<String> },
    /// A standard Unicode emoji.
    Unicode(String),
}

/// A reaction added to or removed from a message.
#[derive(Clone, Debug)]
pub struct Reaction {
    pub channel_id: u64,
    pub guild_id: Option<u64>,
    pub user_id: Option<u64>,
    pub emoji: ReactionEmoji,
}

/// A role to give to or take from a guild member, found by its name.
#[derive(Clone, Debug)]
pub struct RoleRequest {
    pub guild_id: u64,
    pub user_id: u64,
    pub role: String,
}

/// The role that a reaction stands for: only reactions in the reaction-role
/// channel with a named custom emoji that the role map knows count.
pub open spec fn reaction_role(cfg: Config, reaction: Reaction) -> Option<Seq<char>> {
    if reaction.channel_id != cfg.reaction_roles.channel {
        None
    } else {
        match reaction.emoji {
            ReactionEmoji::Custom { name: Some(n), .. } => {
                if cfg.reaction_roles.role_map@.contains_key(n@) {
                    Some(cfg.reaction_roles.role_map@[n@])
                } else {
                    None
                }
            },
            _ => None,
        }
    }
}

/// The guild and role that a reaction asks for, if it asks for one.
pub open spec fn role_request(cfg: Config, reaction: Reaction) -> Option<(u64, Seq<char>)> {
    match (reaction_role(cfg, reaction), reaction.guild_id) {
        (Some(role), Some(guild)) => Some((guild, role)),
        _ => None,
    }
}

/// The request as plain values: its guild, member and role.
pub open spec fn request_view(r: Option<RoleRequest>) -> Option<(u64, u64, Seq<char>)> {
    match r {
        Some(req) => Some((req.guild_id, req.user_id, req.role@)),
        None => None,
    }
}

/// The request a reaction makes: the role it asks for, in its guild, for
/// the member who reacted.
pub open spec fn member_role_request(cfg: Config, reaction: Reaction) -> Option<(u64, u64, Seq<char>)> {
    match (role_request(cfg, reaction), reaction.user_id) {
        (Some((guild, role)), Some(user)) => Some((guild, user, role)),
        _ => None,
    }
}

/// Whether the reaction can be acted on: a reaction that asks for a role
/// comes from a user (serenity leaves the user out of some reactions).
pub open spec fn has_user_if_needed(cfg: Config, reaction: Reaction) -> bool {
    role_request(cfg, reaction) is Some ==> reaction.user_id is Some
}

fn requested_role(cfg: &Config, reaction: &Reaction) -> (r: Option<(u64, String)>)
    ensures
        match r {
            Some((guild, role)) => role_request(*cfg, *reaction) == Some((guild, role@)),
            None => role_request(*cfg, *reaction) is None,
        },
{
    if reaction.channel_id != cfg.reaction_roles.channel {
        return None;
    }
    match &reaction.emoji {
        ReactionEmoji::Custom { name: Some(emoji_name), .. } => {
            let role = match cfg.get_role(emoji_name.as_str()) {
                Some(role) => role,
                None => return None,
            };
            match reaction.guild_id {
                Some(guild_id) => Some((guild_id, role.clone())),
                None => None,
            }
        },
        _ => None,
    }
}

/// The request for the reaction's member, when the reaction asks for a role.
fn member_request(cfg: &Config, reaction: &Reaction) -> (r: Option<RoleRequest>)
    requires
        has_user_if_needed(*cfg, *reaction),
    ensures
        request_view(r) == member_role_request(*cfg, *reaction),
{
    match (requested_role(cfg, reaction), reaction.user_id) {
        (Some((guild_id, role)), Some(user_id)) => Some(RoleRequest { guild_id, user_id, role }),
        _ => None,
    }
}

/// Whether the reaction asks for a role (in some guild).
pub fn requests_role(cfg: &Config, reaction: &Reaction) -> (b: bool)
    ensures
        b == role_request(*cfg, *reaction) is Some,
{
    requested_role(cfg, reaction).is_some()
}

/// The role to give the member who added the reaction. A reaction that asks
/// for a role must come from a user.
pub fn add_role(cfg: &Config, reaction: &Reaction) -> (r: Option<RoleRequest>)
    requires
        has_user_if_needed(*cfg, *reaction),
    ensures
        request_view(r) == member_role_request(*cfg, *reaction),
{
    member_request(cfg, reaction)
}

/// The role to take from the member who removed the reaction. A reaction
/// that asks for a role must come from a user.
pub fn remove_role(cfg: &Config, reaction: &Reaction) -> (r: Option<RoleRequest>)
    requires
        has_user_if_needed(*cfg, *reaction),
    ensures
        request_view(r) == member_role_request(*cfg, *reaction),
{
    member_request(cfg, reaction)
}

} // verus!
