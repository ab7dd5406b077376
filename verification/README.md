# discord_bridgebot

A Discord bot that links channels of different communities: once channel A
is bridged to channel B, every message a person posts in A is copied to B
under their name.

`src/` is the verified library: what the bot decides and what it posts.

- `decimal`: reading a channel identifier as `str::parse::<i64>` does, and
  writing integers in decimal, with the round trip between the two.
- `bridge`: the `/bridge` command as a state machine over the outside work
  it needs (names, visibility of the target, storing the pair).
- `unbridge`, `listing`, `sweep`: the `/unbridge`, `/list_bridges` and
  `/unbridge_all` commands; `sweep` also cuts a long report into pieces.
- `relay`: which messages are relayed, where, and with what text.
- `texts`, `emoji`, `presence`, `checks`, `models`: the posted texts, emoji
  glyphs (looked up in the `emojis` crate), the activity line, the owner
  check and the rows of the table of bridges.

`app/` is the program around it: Discord (poise, serenity), the PostgreSQL
table (diesel), logging and configuration.
