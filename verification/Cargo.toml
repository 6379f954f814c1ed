[package]
name = "catalog_bot"
version = "0.1.0"
edition = "2021"
publish = false

[dependencies]
anyhow = "=1.0.104"
async-trait = "=0.1.92"
dotenv = "=0.15.0"
dptree = "=0.2.1"
sea-orm = { version = "=0.7.1", default-features = false, features = ["macros"] }
sea-query = "=0.22.0"
sea-schema = { version = "=0.7.1", default-features = false, features = ["migration"] }
strum = { version = "=0.24.1", features = ["derive"] }
takecell = "=0.1.1"
teloxide = { version = "=0.9.2", default-features = false, features = ["macros", "auto-send", "ctrlc_handler", "rustls"] }
tokio = { version = "=1.54.1", features = ["rt-multi-thread", "macros"] }
tokio-postgres = "=0.7.18"
