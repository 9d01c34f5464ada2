[package]
name = "miden_store"
version = "0.1.0"
edition = "2021"
publish = false

[dependencies]
anyhow = "1"
clap = { version = "4", default-features = false, features = ["std", "derive", "env", "help"] }
diesel = { version = "2.3", default-features = false, features = ["sqlite"] }
miden-lib = { version = "0.9", default-features = false }
miden-objects = { version = "0.9", default-features = false }
miden-protocol = { version = "0.13", default-features = false }
rand = "0.9"
rand_chacha = "0.9"
serde = { version = "1", features = ["derive"] }
tokio = { version = "1", default-features = false, features = ["net", "rt"] }
toml = { version = "0.8", default-features = false, features = ["parse", "display"] }
url = "2"
