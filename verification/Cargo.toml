[package]
name = "min"
version = "0.1.0"
edition = "2021"
publish = false

[dependencies]
hyper = { version = "0.14", features = ["full"] }
tokio = { version = "1", features = ["full"] }
tracing = "0.1"
tracing-subscriber = "0.3"
serde = { version = "1", features = ["derive"] }
structopt = "0.3"
toml = "0.5"
which = "4"
diesel = { version = "2", default-features = false, features = ["sqlite"] }
libsqlite3-sys = { version = "*", features = ["bundled"] }
