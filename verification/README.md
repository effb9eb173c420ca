# notch-farm

Tracks who won internet arguments: members of a Discord server (or of a
group, through the HTTP API) start arguments, the loser gives the winner a
notch, and a leaderboard counts the notches.

- `src/` is the verified library: the argument status and its stored text
  (`status`), decimal numbers and mentions as messages show them (`text`),
  the bot's models, database answers, command decisions, replies and
  leaderboard (`bot`), and the server's models and HTTP answers (`server`).
- `app/` runs the server (actix-web) or, with the argument `bot`, the Discord
  bot (serenity), both over SQLite (sqlx); it does the I/O and asks the
  library what to do and say.
- `tests/` exercises the library on concrete values.
