[package]
name = "repo_browser"
version = "0.1.0"
edition = "2021"
publish = false

[dependencies]
ratatui = "0.29"
crossterm = "0.28"
octocrab = "0.44"
tokio = { version = "1", features = ["macros", "rt-multi-thread"] }
dotenv = "0.15"
