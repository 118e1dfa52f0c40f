[package]
name = "kludged"
version = "0.1.0"
edition = "2021"
publish = false

[dependencies]
anyhow = "1"
clap = { version = "4", features = ["derive"] }
clap-verbosity-flag = "2"
color-print = "0.3"
hidapi = { version = "2", default-features = false, features = ["linux-native-basic-udev"] }
palette = "0.7"
strum = { version = "0.26", features = ["derive"] }
thiserror = "1"
