use coding_companion::commands::{CommandError, Commands};
use coding_companion::handler::{Handler, OptionKind, OptionValue};

fn parse(name: &str, first: Option<OptionValue>) -> Result<Commands, CommandError> {
    Handler.parse_command(name, first.as_ref())
}

#[test]
fn simple_commands_parse_without_options() {
    assert!(matches!(parse("ping", None), Ok(Commands::Ping)));
    assert!(matches!(parse("role_message", None), Ok(Commands::CreateRoleMessage)));
    assert!(matches!(parse("lock", None), Ok(Commands::Lock)));
    assert!(matches!(parse("unlock", None), Ok(Commands::Unlock)));
    assert!(matches!(parse("tldr", None), Ok(Commands::Tldr)));
    assert!(matches!(parse("ping", Some(OptionValue::Other)), Ok(Commands::Ping)));
}

#[test]
fn purge_takes_integer_count() {
    assert!(matches!(parse("purge", Some(OptionValue::Integer(10))), Ok(Commands::Purge { msg_cnt: 10 })));
}

#[test]
fn purge_count_is_reinterpreted_as_unsigned() {
    assert!(matches!(
        parse("purge", Some(OptionValue::Integer(-1))),
        Ok(Commands::Purge { msg_cnt: u64::MAX })
    ));
}

#[test]
fn purge_without_integer_is_invalid() {
    assert!(matches!(parse("purge", None), Err(CommandError::InvalidArguments)));
    assert!(matches!(parse("purge", Some(OptionValue::Text("5".to_string()))), Err(CommandError::InvalidArguments)));
}

#[test]
fn say_takes_text() {
    match parse("say", Some(OptionValue::Text("hi all".to_string()))) {
        Ok(Commands::Say { msg }) => assert_eq!(msg, "hi all"),
        _ => panic!("expected say"),
    }
    assert!(matches!(parse("say", Some(OptionValue::Integer(3))), Err(CommandError::InvalidArguments)));
    assert!(matches!(parse("say", None), Err(CommandError::InvalidArguments)));
}

#[test]
fn unknown_names_are_refused() {
    assert!(matches!(parse("pong", None), Err(CommandError::UnknownCommand)));
    assert!(matches!(parse("", None), Err(CommandError::UnknownCommand)));
    assert!(matches!(parse("Ping", None), Err(CommandError::UnknownCommand)));
}

#[test]
fn registered_commands_are_the_recognized_ones() {
    let defs = Handler.command_definitions();
    let names: Vec<&str> = defs.iter().map(|d| d.name.as_str()).collect();
    assert_eq!(names, vec!["ping", "role_message", "purge", "say", "lock", "unlock", "tldr"]);
    for d in &defs {
        let value = match d.option.as_ref().map(|o| o.kind) {
            Some(OptionKind::Integer) => Some(OptionValue::Integer(5)),
            Some(OptionKind::Text) => Some(OptionValue::Text("x".to_string())),
            None => None,
        };
        assert!(parse(&d.name, value).is_ok(), "command {}", d.name);
    }
}

#[test]
fn command_options_are_declared() {
    let defs = Handler.command_definitions();
    let purge = defs[2].option.as_ref().expect("purge option");
    assert_eq!(purge.name, "count");
    assert_eq!(purge.description, "Amount of messages to delete.");
    assert_eq!(purge.kind, OptionKind::Integer);
    assert_eq!((purge.min_int, purge.max_int, purge.max_length), (Some(2), Some(100), None));
    let say = defs[3].option.as_ref().expect("say option");
    assert_eq!(say.name, "message");
    assert_eq!(say.kind, OptionKind::Text);
    assert_eq!(say.max_length, Some(4096));
    assert_eq!(defs[4].description, "Lock the current text channel. This makes it visible but disallows non-admins from typing.");
    assert!(defs[0].option.is_none());
}

#[test]
fn own_messages_are_ignored() {
    assert!(Handler.handles_message(1, 2));
    assert!(!Handler.handles_message(7, 7));
}
