[package]
name = "query_index"
version = "0.1.0"
edition = "2021"
publish = false

[dependencies]
tantivy = "*"
postgres = "*"
fallible-iterator = "0.2"
serde = { version = "1", features = ["derive"] }
serde_yaml = "*"
serde_json = "1"
log = "0.4"
env_logger = "*"
structopt = "0.3"
iron = "0.6"
mount = "0.4"
staticfile = "0.5"
