[package]
name = "covers_api"
version = "0.1.0"
edition = "2021"
publish = false

[dependencies]
anyhow = "*"
axum = "*"
axum_thiserror = "*"
chrono = "*"
confy = "*"
deadpool-diesel = { version = "*", features = ["mysql"] }
derive_more = { version = "*", features = ["display"] }
diesel = { version = "*", features = ["mysql"] }
diesel_migrations = "*"
enclose = "*"
image = { version = "*", default-features = false, features = ["webp", "jpeg", "png"] }
reqwest = { version = "*", default-features = false, features = ["json"] }
serde = { version = "*", features = ["derive"] }
strum = "*"
strum_macros = "*"
thiserror = "*"
tokio = { version = "*", features = ["macros", "rt-multi-thread", "sync", "net", "fs"] }
tracing = "*"
tracing-subscriber = "*"
