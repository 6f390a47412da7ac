[package]
name = "poll_session"
version = "0.1.0"
edition = "2021"
publish = false

[dependencies]
futures = "0.3"
gloo = "0.8"
log = "0.4"
patternfly-yew = "0.2"
reqwasm = "0.5"
serde = { version = "1", features = ["derive"] }
serde_json = "1"
yew = "0.19"
