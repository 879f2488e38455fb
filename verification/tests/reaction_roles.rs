use coding_companion::commands::{role_message_reactions, GuildEmoji};
use coding_companion::config::{
    ActivityKind, ChannelNames, Config, ReactionRoles, RoleMap, Status, ThreadChannels,
};
use coding_companion::reaction::{add_role, remove_role, requests_role, Reaction, ReactionEmoji};

fn config() -> Config {
    let mut roles = RoleMap::new();
    roles.insert("rust".to_string(), "Rustacean".to_string());
    Config {
        prefix: "!".to_string(),
        status: Status { activity: ActivityKind::Playing, message: "".to_string() },
        reaction_roles: ReactionRoles { channel: 42, role_map: roles },
        thread_channels: ThreadChannels { channels: ChannelNames::new(), creation_message: String::new() },
    }
}

fn custom(name: Option<&str>) -> ReactionEmoji {
    ReactionEmoji::Custom { animated: false, id: 77, name: name.map(|s| s.to_string()) }
}

fn reaction(channel: u64, guild: Option<u64>, emoji: ReactionEmoji) -> Reaction {
    Reaction { channel_id: channel, guild_id: guild, user_id: Some(5), emoji }
}

#[test]
fn mapped_emoji_in_role_channel_grants_role() {
    let r = add_role(&config(), &reaction(42, Some(9), custom(Some("rust")))).expect("role");
    assert_eq!(r.guild_id, 9);
    assert_eq!(r.user_id, 5);
    assert_eq!(r.role, "Rustacean");
}

#[test]
fn removing_reaction_takes_the_same_role() {
    let cfg = config();
    let re = reaction(42, Some(9), custom(Some("rust")));
    let added = add_role(&cfg, &re).expect("role");
    let removed = remove_role(&cfg, &re).expect("role");
    assert_eq!((added.guild_id, added.role), (removed.guild_id, removed.role));
}

#[test]
fn reactions_elsewhere_are_ignored() {
    assert!(add_role(&config(), &reaction(41, Some(9), custom(Some("rust")))).is_none());
    assert!(remove_role(&config(), &reaction(41, Some(9), custom(Some("rust")))).is_none());
}

#[test]
fn unmapped_unnamed_and_unicode_emojis_are_ignored() {
    assert!(add_role(&config(), &reaction(42, Some(9), custom(Some("go")))).is_none());
    assert!(add_role(&config(), &reaction(42, Some(9), custom(None))).is_none());
    assert!(add_role(&config(), &reaction(42, Some(9), ReactionEmoji::Unicode("🦀".to_string()))).is_none());
}

#[test]
fn reactions_outside_guilds_are_ignored() {
    assert!(add_role(&config(), &reaction(42, None, custom(Some("rust")))).is_none());
}

#[test]
fn role_message_emojis_grant_their_roles() {
    let cfg = config();
    let emojis = vec![
        GuildEmoji { id: 1, name: "rust".to_string(), animated: false },
        GuildEmoji { id: 2, name: "other".to_string(), animated: false },
    ];
    for e in role_message_reactions(&emojis, &cfg.reaction_roles.role_map) {
        let re = reaction(42, Some(3), custom(Some(&e.name)));
        assert!(add_role(&cfg, &re).is_some());
    }
}

#[test]
fn requests_role_tells_which_reactions_ask_for_a_role() {
    assert!(requests_role(&config(), &reaction(42, Some(9), custom(Some("rust")))));
    assert!(!requests_role(&config(), &reaction(41, Some(9), custom(Some("rust")))));
    assert!(!requests_role(&config(), &reaction(42, Some(9), custom(Some("go")))));
}

#[test]
fn reactions_without_role_need_no_user() {
    let mut re = reaction(42, Some(9), custom(Some("go")));
    re.user_id = None;
    assert!(add_role(&config(), &re).is_none());
}
