use coding_companion::commands::{
    purge_limit, purge_plan, purge_summary, role_message_reactions, BotProfile, CommandError, Commands, GuildEmoji,
    Invocation, Start,
};
use coding_companion::config::{
    ActivityKind, ChannelNames, Config, ReactionRoles, RoleMap, Status, ThreadChannels,
};
use coding_companion::reply::Tint;
use serenity::model::Permissions;

fn config() -> Config {
    let mut roles = RoleMap::new();
    roles.insert("rust".to_string(), "Rustacean".to_string());
    roles.insert("ferris".to_string(), "Crab".to_string());
    Config {
        prefix: "!".to_string(),
        status: Status { activity: ActivityKind::Listening, message: "you".to_string() },
        reaction_roles: ReactionRoles { channel: 42, role_map: roles },
        thread_channels: ThreadChannels {
            channels: ChannelNames::new(),
            creation_message: "hi".to_string(),
        },
    }
}

fn invocation(guild: Option<u64>, channel: u64) -> Invocation {
    Invocation { guild_id: guild, channel_id: channel, user_name: "alice".to_string() }
}

fn bot() -> BotProfile {
    BotProfile { name: "Companion".to_string(), avatar_url: Some("https://cdn/avatar.png".to_string()) }
}

fn start(cmd: Commands, inv: &Invocation) -> Start {
    cmd.start(inv, Some(&config()), &bot(), "React below to get roles.")
}

#[test]
fn ping_answers_pong() {
    match start(Commands::Ping, &invocation(Some(1), 5)) {
        Start::Respond(r) => {
            assert!(r.with_source);
            assert!(!r.ephemeral);
            assert_eq!(r.title, None);
            assert_eq!(r.description, "Pong!");
            assert_eq!(r.tint, Tint::Purple);
        }
        _ => panic!("ping must answer"),
    }
}

#[test]
fn role_message_outside_guild_fails() {
    match start(Commands::CreateRoleMessage, &invocation(None, 42)) {
        Start::Fail(e) => {
            assert_eq!(e, CommandError::NotInGuild);
            assert_eq!(e.message(), "Not in a guild!");
        }
        _ => panic!("expected a failure"),
    }
}

#[test]
fn role_message_in_wrong_channel_is_refused() {
    match start(Commands::CreateRoleMessage, &invocation(Some(1), 7)) {
        Start::Refuse(r, e) => {
            assert_eq!(e, CommandError::InvalidChannel);
            assert_eq!(e.message(), "Invalid channel id");
            assert!(r.ephemeral);
            assert_eq!(r.title.as_deref(), Some("Wrong Channel!"));
            assert_eq!(r.description, "You tried to create a reaction role message in the wrong channel!");
            assert_eq!(r.tint, Tint::Red);
        }
        _ => panic!("expected a refusal"),
    }
}

#[test]
fn role_message_in_role_channel_is_posted() {
    match start(Commands::CreateRoleMessage, &invocation(Some(1), 42)) {
        Start::PostRoleMessage(r) => {
            assert!(!r.ephemeral);
            assert!(!r.with_source);
            assert_eq!(r.title.as_deref(), Some("Reaction Roles."));
            assert_eq!(r.description, "React below to get roles.");
            assert_eq!(r.tint, Tint::Purple);
        }
        _ => panic!("expected the role message"),
    }
}

#[test]
fn purge_keeps_its_count() {
    match start(Commands::Purge { msg_cnt: 25 }, &invocation(Some(1), 5)) {
        Start::Purge { limit } => assert_eq!(limit, 25),
        _ => panic!("expected a purge"),
    }
}

#[test]
fn purge_summary_names_user_and_count() {
    let r = purge_summary("alice", 12);
    assert_eq!(r.description, "**alice** purged 12 messages!");
    assert_eq!(r.tint, Tint::Blue);
    assert!(!r.with_source);
    assert_eq!(purge_summary("bob", 0).description, "**bob** purged 0 messages!");
}

#[test]
fn say_repeats_message_under_bot_name() {
    match start(Commands::Say { msg: "hello there".to_string() }, &invocation(Some(1), 5)) {
        Start::Respond(r) => {
            assert!(r.with_source);
            assert_eq!(r.description, "hello there");
            let author = r.author.expect("author");
            assert_eq!(author.name, "Companion");
            assert_eq!(author.icon_url, "https://cdn/avatar.png");
            assert_eq!(r.tint, Tint::Purple);
        }
        _ => panic!("say must answer"),
    }
}

#[test]
fn say_without_avatar_uses_empty_icon() {
    let cmd = Commands::Say { msg: "x".to_string() };
    let profile = BotProfile { name: "B".to_string(), avatar_url: None };
    match cmd.start(&invocation(Some(1), 5), Some(&config()), &profile, "") {
        Start::Respond(r) => assert_eq!(r.author.expect("author").icon_url, ""),
        _ => panic!("say must answer"),
    }
}

#[test]
fn lock_grants_view_and_history_to_everyone() {
    match start(Commands::Lock, &invocation(Some(1), 5)) {
        Start::SetPermissions { allow, role, reply } => {
            assert_eq!(allow.bits(), (Permissions::VIEW_CHANNEL | Permissions::READ_MESSAGE_HISTORY).bits());
            assert_eq!(role, "@everyone");
            assert_eq!(reply.description, "**alice** locked this channel!");
            assert_eq!(reply.tint, Tint::Purple);
        }
        _ => panic!("expected a permission change"),
    }
}

#[test]
fn unlock_grants_posting_to_everyone() {
    let expected = Permissions::empty()
        | Permissions::VIEW_CHANNEL
        | Permissions::READ_MESSAGE_HISTORY
        | Permissions::CREATE_PUBLIC_THREADS
        | Permissions::SEND_MESSAGES
        | Permissions::SEND_MESSAGES_IN_THREADS
        | Permissions::EMBED_LINKS
        | Permissions::ATTACH_FILES
        | Permissions::ADD_REACTIONS
        | Permissions::USE_EXTERNAL_EMOJIS
        | Permissions::USE_EXTERNAL_STICKERS;
    match start(Commands::Unlock, &invocation(Some(1), 5)) {
        Start::SetPermissions { allow, role, reply } => {
            assert_eq!(allow.bits(), expected.bits());
            assert_eq!(role, "@everyone");
            assert_eq!(reply.description, "**alice** unlocked this channel!");
        }
        _ => panic!("expected a permission change"),
    }
}

#[test]
fn tldr_does_nothing() {
    assert!(matches!(start(Commands::Tldr, &invocation(Some(1), 5)), Start::Nothing));
}

#[test]
fn role_message_reacts_with_mapped_emojis_in_order() {
    let emojis = vec![
        GuildEmoji { id: 1, name: "ferris".to_string(), animated: false },
        GuildEmoji { id: 2, name: "go".to_string(), animated: false },
        GuildEmoji { id: 3, name: "rust".to_string(), animated: true },
    ];
    let picked = role_message_reactions(&emojis, &config().reaction_roles.role_map);
    let ids: Vec<u64> = picked.iter().map(|e| e.id).collect();
    assert_eq!(ids, vec![1, 3]);
    assert_eq!(picked[1].name, "rust");
    assert!(picked[1].animated);
}

#[test]
fn role_message_reacts_with_nothing_without_mapped_emojis() {
    let emojis = vec![GuildEmoji { id: 9, name: "go".to_string(), animated: false }];
    assert!(role_message_reactions(&emojis, &config().reaction_roles.role_map).is_empty());
    assert!(role_message_reactions(&Vec::new(), &config().reaction_roles.role_map).is_empty());
}

#[test]
fn error_messages() {
    assert_eq!(CommandError::InvalidArguments.message(), "Invalid arguments");
    assert_eq!(CommandError::UnknownCommand.message(), "Could not find the target command");
    assert_eq!(CommandError::NotGuildChannel.message(), "Not a guild channel");
    assert_eq!(CommandError::RoleNotFound.message(), "Could not find a requested role");
}

#[test]
fn commands_other_than_role_message_need_no_config() {
    let inv = invocation(Some(1), 5);
    assert!(matches!(Commands::Ping.start(&inv, None, &bot(), ""), Start::Respond(_)));
    assert!(matches!(Commands::Lock.start(&inv, None, &bot(), ""), Start::SetPermissions { .. }));
    assert!(matches!(
        Commands::CreateRoleMessage.start(&invocation(None, 42), None, &bot(), ""),
        Start::Fail(CommandError::NotInGuild)
    ));
}

#[test]
fn purge_only_in_guild_channels() {
    assert_eq!(purge_limit(true, 30), Some(30));
    assert_eq!(purge_limit(false, 30), None);
}

#[test]
fn purge_plan_deletes_what_it_fetched_and_reports_the_count() {
    let (ids, reply) = purge_plan("alice", vec![11, 12, 13]);
    assert_eq!(ids, vec![11, 12, 13]);
    assert_eq!(reply.description, "**alice** purged 3 messages!");
    assert_eq!(reply.tint, Tint::Blue);
    let (ids, reply) = purge_plan("bob", Vec::new());
    assert!(ids.is_empty());
    assert_eq!(reply.description, "**bob** purged 0 messages!");
}
