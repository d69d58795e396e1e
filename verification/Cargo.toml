[package]
name = "slimevr_lib"
version = "0.1.0"
edition = "2021"
publish = false

[dependencies]
clap = { version = "4", default-features = false, features = ["derive", "std", "help", "usage", "error-context"] }
color-eyre = { version = "0.6", default-features = false }
log = "0.4"
log-panics = "2"
open = "5"
rfd = { version = "0.15", default-features = false, features = ["gtk3"] }
win32job = "2"
