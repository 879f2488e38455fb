# coding_companion

A Discord community bot: reaction roles, a thread opened under every message
in chosen channels, and slash commands (`ping`, `role_message`, `purge`,
`say`, `lock`, `unlock`, `tldr`).

- `src/` holds every decision the bot makes, each proved against its
  contract: the configuration and its lookups, command parsing and
  registration, what each command does, reaction roles, thread names, and the
  permission overwrites of `lock`/`unlock`. `src/laws.rs` proves properties that relate them.
- `app/` connects the library to Discord through serenity: it reads
  `config.json` and `res/role_message.md`, receives gateway events and carries
  out what the library decided.
- `tests/` runs the library on concrete values.
