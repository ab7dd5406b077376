[package]
name = "discord_bridgebot"
version = "0.1.0"
edition = "2021"
publish = false

[dependencies]
diesel = { version = "2", features = ["postgres"] }
diesel_migrations = "2"
dotenv = "0.15"
emojis = "*"
env_logger = "*"
log = "0.4"
poise = "0.6"
serenity = "0.12"
tokio = { version = "1", features = ["macros", "rt-multi-thread"] }
