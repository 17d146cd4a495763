# ultron

Ultron is a Discord chat bot. It answers `!ultron` commands (echo, dice
rolls, copy pastas, help), relays conversations to a language model, posts
Grafana alerts, and keeps a small coin economy with daily allowances,
tips, gambles and a shop.

The library under `src/` holds the bot's logic, verified with Verus:

- `command`, `chatbot`, `dice`, `copypasta`, `event_processor`, `nlp`:
  reading commands, rolling dice, the event log, and the language model
  conversation;
- `discord`, `http_server`, `grafana`, `mcp`, `cli`: what the bot decides
  around Discord, its HTTP routes, alerts, agent tools and settings;
- `commands`, `gambling`, `coins`, `coin_bot`, `db`, `admin`, `chat`,
  `items`: the coin economy, its chat commands, messages and database
  rules;
- `text`: the character-level text handling the parsers share.

`app/` is the program around it: the command line, Discord, the HTTP
server, files and the Ollama language model service. `ultron coins`
runs the coin bot, which keeps its balances in the library's ledgers in
memory; the item shop and the database administration tool need the
SQLite item and account database, which `app/` does not include.
