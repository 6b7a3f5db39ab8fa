[package]
name = "bleur"
version = "0.1.0"
edition = "2021"
publish = false

[dependencies]
url = "2"
regex = "1"
tempfile = "3"
clap = { version = "4", features = ["derive"] }
inquire = "*"
serde = { version = "1", features = ["derive"] }
serde_json = "1"
toml = "*"
dircpy = "*"
git2 = { version = "*", default-features = false }
reqwest = { version = "*", default-features = false, features = ["blocking"] }
zip = { version = "*", default-features = false, features = ["deflate"] }
owo-colors = "*"
thiserror = "*"
