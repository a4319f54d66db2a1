[package]
name = "git_commit_summarizer"
version = "1.0.0"
edition = "2021"
publish = false

[dependencies]
clap = "2.34"
colored = "2"
dotenv = "0.15"
reqwest = { version = "0.11", features = ["json"] }
serde_json = "1"
tokio = { version = "1", features = ["macros", "rt-multi-thread"] }

[dev-dependencies]
regex = "1"
