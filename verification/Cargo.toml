[package]
name = "interactive_scrapper"
version = "0.1.0"
edition = "2021"
publish = false

[dependencies]
anyhow = "1"
fantoccini = "0.17"
rdev = "0.5"
tokio = { version = "1", features = ["macros", "rt-multi-thread"] }
tracing = "0.1"
tracing-subscriber = { version = "0.3", features = ["env-filter"] }
