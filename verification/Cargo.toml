[package]
name = "oxide"
version = "0.1.0"
edition = "2021"
publish = false

[dependencies]
ansi_term = "0.12"
anyhow = "1"
async-trait = "0.1"
chrono = "0.4"
chrono-humanize = "0.2"
clap = { version = "3", features = ["cargo", "derive", "env"] }
dialoguer = "0.10"
oxide-api = "0.1.0-rc.1"
serde_json = "1"
shlex = "1"
tabwriter = "1"
tokio = { version = "1", features = ["macros", "rt-multi-thread"] }
