[package]
name = "baichuan_cli"
version = "0.1.0"
edition = "2021"
publish = false

[dependencies]
chrono = "0.4"
clap = { version = "4", features = ["derive", "env"] }
env_logger = "0.10"
log = "0.4"
md5 = "0.7"
reqwest = { version = "0.11", features = ["json"] }
rustyline = "12"
serde = { version = "1", features = ["derive"] }
serde_json = "1"
serde_repr = "0.1"
tokio = { version = "1", features = ["macros", "rt-multi-thread"] }
ulid = "1"
