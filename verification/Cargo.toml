[package]
name = "swr3_remix"
version = "0.1.0"
edition = "2021"
publish = false

[dependencies]
cached = { version = "=4.0.1", default-features = false }
dotenv = "*"
json = "*"
reqwest = { version = "=0.13.5", features = ["blocking", "json", "query"] }
serde = { version = "*", features = ["derive"] }
