[package]
name = "pttcrawler"
version = "0.1.0"
edition = "2021"
publish = false

[dependencies]
url = "*"
reqwest = { version = "*", features = ["cookies"] }
tokio = { version = "*", features = ["macros", "rt-multi-thread"] }
select = "*"
serde = { version = "*", features = ["derive"] }
serde_json = "*"
structopt = "*"
fake-useragent = "*"
