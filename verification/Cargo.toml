[package]
name = "oxbow"
version = "0.1.0"
edition = "2021"
publish = false

[dependencies]
r2d2 = "0.8"
r2d2_sqlite = "0.35"
rand = "0.8"
chrono = "0.4"
tokio = { version = "1", features = ["rt-multi-thread", "macros", "sync", "time"] }
clap = { version = "4", features = ["derive", "env"] }
dotenv = "0.15"
tracing = "0.1"
tracing-subscriber = "0.3"
serde = { version = "1", features = ["derive"] }
thiserror = "2"
async-trait = "0.1"
twitch-irc = { version = "6", features = ["refreshing-token-rustls-webpki-roots"] }
twitch_oauth2_auth_flow = "0.0.1-alpha"

[dev-dependencies]
tempfile = "3"
