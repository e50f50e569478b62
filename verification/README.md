# mc_afk_tui

A terminal client for an AFK Minecraft bot, with its decision logic verified
in Verus.

- `src/` is the verified library: command-line parsing and merging with the
  configuration file (`args`), the application state (`state`), the input
  line editor (`input`), what keys and bot events do to the UI (`app`), the
  chat and error panels (`chat_panel`, `error_panel`), the status bar and
  dialog texts (`status_bar`, `modal`), ANSI colour decoding of chat text
  (`ansi`, `style`), the bot's decisions — event reports, commands, the
  anti-AFK schedule, the after-spawn script and reconnection (`bot`) — and
  the plain console mode (`console`). `text` holds the string utilities
  they share.
- `app/` is the program around it: the terminal front end (crossterm and
  ratatui), the game client (azalea), channels and timers (tokio), the
  configuration file (serde, toml, notify) and argument handling.
- `tests/` exercises the library on concrete values.
