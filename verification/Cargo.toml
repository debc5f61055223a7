[package]
name = "redundinator"
version = "0.1.0"
edition = "2021"
publish = false

[dependencies]
chrono = "=0.4.45"
rand = "0.8"
log = "0.4"
regex = "1"
glob = "0.3"
serde = { version = "1", features = ["derive"] }
serde_json = "1"
clap = { version = "4", features = ["derive", "env"] }
config = "0.14.1"
log4rs = "1"
run_script = "0.11.2"
sqlite = "0.37.4"
nix = { version = "0.31.3", features = ["user"] }
dropbox-sdk = "0.18.1"
parallel_reader = "0.1.2"
google-drive3 = "6.0.0"
google-apis-common = "7.0.0"
hyper = "1"
hyper-rustls = "0.27"
hyper-util = "0.1"
http-body-util = "0.1"
rustls = "0.23"
mime = "0.3"
tokio = { version = "1", features = ["rt", "macros"] }
actix-web = { version = "4", default-features = false, features = ["macros"] }
actix-rt = "2"
