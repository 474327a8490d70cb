[package]
name = "smtc2web-dev"
version = "0.1.0"
edition = "2021"
publish = false

[dependencies]
base64 = "0.22"
clap = { version = "4", features = ["derive"] }
dbus = { version = "0.9", features = ["vendored"] }
dirs = "6"
futures-util = "0.3"
http-body-util = "0.1"
hyper = { version = "1", features = ["client", "http1", "server"] }
hyper-util = { version = "0.1", features = ["tokio"] }
mime_guess = "2"
mpris = "2"
notify = "8"
open = "5"
serde = { version = "1", features = ["derive"] }
serde_json = "1"
tokio = { version = "1", features = ["full"] }
tokio-stream = { version = "0.1", features = ["sync", "time"] }
toml = "0.8"
windows = { version = "0.58", features = ["ApplicationModel", "Foundation", "Foundation_Collections", "Management_Deployment", "Media_Control", "Storage_Streams"] }
