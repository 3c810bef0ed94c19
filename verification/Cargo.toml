[package]
name = "gen_todo"
version = "0.1.0"
edition = "2021"
publish = false

[dependencies]
async-trait = "=0.1.92"
axum = "=0.7.9"
clap = "=4.6.7"
config = { version = "=0.14.1", default-features = false, features = ["toml"] }
postgres = "=0.19.14"
sea-orm = { version = "=1.1.20", features = ["sqlx-postgres", "runtime-tokio"] }
serde = { version = "=1.0.229", features = ["derive"] }
thiserror = "=1.0.69"
tokio = { version = "=1.54.1", features = ["rt-multi-thread", "macros", "net", "signal", "sync"] }
tracing = "=0.1.44"
tracing-subscriber = { version = "=0.3.23", features = ["env-filter"] }
