//! Gateway events: which messages open threads, how an interaction becomes
//! a command, and which slash commands the bot registers.
use vstd::prelude::*;
use vstd::string::*;
use crate::commands::{CommandError, Commands, CommandsView};
use crate::text::same_text;

verus! {

/// Handles the bot's gateway events.
#[derive(Clone, Copy, Debug)]
pub struct Handler;

/// The resolved value of a command's first option.
#[derive(Clone, Debug)]
pub enum OptionValue {
    Integer(i64),
    Text(String),
    /// A value of any other type (user, channel, role, ...).
    Other,
}

/// An option value as plain values.
pub enum OptionValueView {
    Integer(i64),
    Text(Seq<char>),
    Other,
}

/// The option value, if any, as plain values.
pub open spec fn option_view(v: Option<&OptionValue>) -> Option<OptionValueView> {
    match v {
        Some(OptionValue::Integer(n)) => Some(OptionValueView::Integer(*n)),
        Some(OptionValue::Text(t)) => Some(OptionValueView::Text(t@)),
        Some(OptionValue::Other) => Some(OptionValueView::Other),
        None => None,
    }
}

/// The command that an interaction with this name and first option value
/// asks for. `purge` needs an integer, `say` a string; an unknown name is
/// refused.
pub open spec fn command_for(name: Seq<char>, first: Option<OptionValueView>) -> Result<
    CommandsView,
    CommandError,
> {
    if name == "ping"@ {
        Ok(CommandsView::Ping)
    } else if name == "role_message"@ {
        Ok(CommandsView::CreateRoleMessage)
    } else if name == "purge"@ {
        match first {
            Some(OptionValueView::Integer(n)) => Ok(CommandsView::Purge { msg_cnt: n as u64 }),
            _ => Err(CommandError::InvalidArguments),
        }
    } else if name == "say"@ {
        match first {
            Some(OptionValueView::Text(m)) => Ok(CommandsView::Say { msg: m }),
            _ => Err(CommandError::InvalidArguments),
        }
    } else if name == "lock"@ {
        Ok(CommandsView::Lock)
    } else if name == "unlock"@ {
        Ok(CommandsView::Unlock)
    } else if name == "tldr"@ {
        Ok(CommandsView::Tldr)
    } else {
        Err(CommandError::UnknownCommand)
    }
}

/// The type of a command option.
#[derive(Clone, Copy, Debug, PartialEq, Eq, Structural)]
pub enum OptionKind {
    Integer,
    Text,
}

/// The option of a registered command.
#[derive(Clone, Debug)]
pub struct CommandOption {
    pub name: String,
    pub description: String,
    pub kind: OptionKind,
    pub min_int: Option<i64>,
    pub max_int: Option<i64>,
    pub max_length: Option<u16>,
}

/// A slash command that the bot registers in each guild.
#[derive(Clone, Debug)]
pub struct CommandDefinition {
    pub name: String,
    pub description: String,
    pub option: Option<CommandOption>,
}

/// A command option as plain values.
pub struct CommandOptionView {
    pub name: Seq<char>,
    pub description: Seq<char>,
    pub kind: OptionKind,
    pub min_int: Option<i64>,
    pub max_int: Option<i64>,
    pub max_length: Option<u16>,
}

/// A command definition as plain values.
pub struct CommandDefinitionView {
    pub name: Seq<char>,
    pub description: Seq<char>,
    pub option: Option<CommandOptionView>,
}

impl View for CommandOption {
    type V = CommandOptionView;

    open spec fn view(&self) -> CommandOptionView {
        CommandOptionView {
            name: self.name@,
            description: self.description@,
            kind: self.kind,
            min_int: self.min_int,
            max_int: self.max_int,
            max_length: self.max_length,
        }
    }
}

impl View for CommandDefinition {
    type V = CommandDefinitionView;

    open spec fn view(&self) -> CommandDefinitionView {
        CommandDefinitionView {
            name: self.name@,
            description: self.description@,
            option: match self.option {
                Some(o) => Some(o@),
                None => None,
            },
        }
    }
}

/// A command without options.
pub open spec fn bare_command(name: Seq<char>, description: Seq<char>) -> CommandDefinitionView {
    CommandDefinitionView { name, description, option: None }
}

/// The slash commands the bot registers, in registration order.
pub open spec fn command_catalog() -> Seq<CommandDefinitionView> {
    seq![
        bare_command("ping"@, "Ping"@),
        bare_command(
            "role_message"@,
            "Create a message that will have all the reaction role reaction added to it."@,
        ),
        CommandDefinitionView {
            name: "purge"@,
            description: "Delete a certain amount of messages from a channel."@,
            option: Some(
                CommandOptionView {
                    name: "count"@,
                    description: "Amount of messages to delete."@,
                    kind: OptionKind::Integer,
                    min_int: Some(2),
                    max_int: Some(100),
                    max_length: None,
                },
            ),
        },
        CommandDefinitionView {
            name: "say"@,
            description: "Make the bot say something!"@,
            option: Some(
                CommandOptionView {
                    name: "message"@,
                    description: "The message to bot should print."@,
                    kind: OptionKind::Text,
                    min_int: None,
                    max_int: None,
                    max_length: Some(4096),
                },
            ),
        },
        bare_command(
            "lock"@,
            "Lock the current text channel. This makes it visible but disallows non-admins from typing."@,
        ),
        bare_command("unlock"@, "Unlocks the current text channel. This makes it public!"@),
        bare_command("tldr"@, "Give a tldr."@),
    ]
}

fn bare(name: &str, description: &str) -> (d: CommandDefinition)
    ensures
        d@ == bare_command(name@, description@),
{
    CommandDefinition { name: name.to_owned(), description: description.to_owned(), option: None }
}

impl Handler {
    /// Whether a new message should be handled (the bot opens threads for
    /// messages of others only, never for its own).
    pub fn handles_message(&self, author_id: u64, own_id: u64) -> (b: bool)
        ensures
            b == (author_id != own_id),
    {
        author_id != own_id
    }

    /// The command that an interaction asks for, from its name and the
    /// resolved value of its first option.
    pub fn parse_command(&self, name: &str, first: Option<&OptionValue>) -> (r: Result<
        Commands,
        CommandError,
    >)
        ensures
            match r {
                Ok(c) => command_for(name@, option_view(first)) == Ok::<CommandsView, CommandError>(
                    c@,
                ),
                Err(e) => command_for(name@, option_view(first)) == Err::<CommandsView, CommandError>(
                    e,
                ),
            },
    {
        if same_text(name, "ping") {
            Ok(Commands::Ping)
        } else if same_text(name, "role_message") {
            Ok(Commands::CreateRoleMessage)
        } else if same_text(name, "purge") {
            match first {
                Some(OptionValue::Integer(n)) => Ok(Commands::Purge { msg_cnt: *n as u64 }),
                _ => Err(CommandError::InvalidArguments),
            }
        } else if same_text(name, "say") {
            match first {
                Some(OptionValue::Text(m)) => Ok(Commands::Say { msg: m.clone() }),
                _ => Err(CommandError::InvalidArguments),
            }
        } else if same_text(name, "lock") {
            Ok(Commands::Lock)
        } else if same_text(name, "unlock") {
            Ok(Commands::Unlock)
        } else if same_text(name, "tldr") {
            Ok(Commands::Tldr)
        } else {
            Err(CommandError::UnknownCommand)
        }
    }

    /// The slash commands to register in every guild the bot is in.
    pub fn command_definitions(&self) -> (defs: Vec<CommandDefinition>)
        ensures
            defs@.map_values(|d: CommandDefinition| d@) == command_catalog(),
    {
        let mut defs: Vec<CommandDefinition> = Vec::new();
        defs.push(bare("ping", "Ping"));
        defs.push(
            bare(
                "role_message",
                "Create a message that will have all the reaction role reaction added to it.",
            ),
        );
        defs.push(
            CommandDefinition {
                name: String::from_str("purge"),
                description: String::from_str(
                    "Delete a certain amount of messages from a channel.",
                ),
                option: Some(
                    CommandOption {
                        name: String::from_str("count"),
                        description: String::from_str("Amount of messages to delete."),
                        kind: OptionKind::Integer,
                        min_int: Some(2),
                        max_int: Some(100),
                        max_length: None,
                    },
                ),
            },
        );
        defs.push(
            CommandDefinition {
                name: String::from_str("say"),
                description: String::from_str("Make the bot say something!"),
                option: Some(
                    CommandOption {
                        name: String::from_str("message"),
                        description: String::from_str("The message to bot should print."),
                        kind: OptionKind::Text,
                        min_int: None,
                        max_int: None,
                        max_length: Some(4096),
                    },
                ),
            },
        );
        defs.push(
            bare(
                "lock",
                "Lock the current text channel. This makes it visible but disallows non-admins from typing.",
            ),
        );
        defs.push(bare("unlock", "Unlocks the current text channel. This makes it public!"));
        defs.push(bare("tldr", "Give a tldr."));
        assert(defs@.map_values(|d: CommandDefinition| d@) =~= command_catalog());
        defs
    }
}

} // verus!
