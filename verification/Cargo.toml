[package]
name = "clai"
version = "0.1.0"
edition = "2021"
publish = false

[dependencies]
clap = { version = "4", features = ["derive", "env"] }
serde = { version = "1", features = ["derive"] }
serde_json = "1"
toml = "0.8"
figment = { version = "0.10", features = ["toml", "env"] }
dirs = "5"
inquire = "0.7"
console = "0.15"
ureq = { version = "2", features = ["json"] }
wait-timeout = "0.2"
libc = "0.2"
tempfile = "3"
sha2 = "0.10"
hex = "0.4"
os_info = "3"
rustyline = "14"
indicatif = "0.17"
hf-hub = { version = "0.4", default-features = false, features = ["ureq"] }
thiserror = "1"
tracing-subscriber = { version = "0.3", features = ["env-filter"] }
