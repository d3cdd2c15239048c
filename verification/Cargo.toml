[package]
name = "masp_rewards"
version = "0.1.0"
edition = "2021"
publish = false

[dependencies]
anyhow = "1"
async-trait = "0.1"
axum = "*"
axum-extra = { version = "*", features = ["query"] }
axum-macros = "*"
bigdecimal = "*"
clap = { version = "4", features = ["derive", "env"] }
diesel = { version = "2", features = ["postgres", "numeric"] }
futures = "0.3"
serde = { version = "1", features = ["derive"] }
sha256 = { version = "*", default-features = false }
subtle-encoding = "*"
