[package]
name = "musicctl"
version = "0.1.0"
edition = "2021"
publish = false

[dependencies]
async-trait = "0.1"
clap = { version = "4", features = ["derive"] }
futures = "0.3"
serde_json = "1"
thiserror = "1"
tokio = { version = "1", features = ["macros", "rt-multi-thread"] }
zbus = { version = "4", default-features = false, features = ["tokio"] }
zbus_macros = "4"
zvariant = "4"
