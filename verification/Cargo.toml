[package]
name = "yap"
version = "0.1.0"
edition = "2021"
publish = false

[dependencies]
bstr = "=1.13.1"
hex = "=0.4.3"
memchr = "=2.8.3"
regex = "=1.13.1"
semver = "=1.0.28"
sha2 = "=0.10.9"
unicode-width = "=0.2.3"
chrono = "=0.4.45"
tui-input = "=0.15.5"
ratatui = { version = "=0.30.2", default-features = false, features = ["crossterm", "unstable-rendered-line-info"] }
crossbeam = "=0.8.5"
serialport = { version = "=4.10.1", default-features = false }
clap = { version = "=4.6.7", features = ["derive"] }
serde = { version = "=1.0.229", features = ["derive"] }
toml = "0.9"
color-eyre = "=0.6.5"
directories = "=6.0.0"
arboard = { version = "=3.7.0", default-features = false }
crokey = "=1.5.1"
terminput = "=0.5.16"
terminput-crossterm = "=0.4.12"
tracing = "=0.1.44"
tracing-subscriber = "=0.3.23"
defmt-decoder = { version = "=1.2.0", default-features = false }
espflash = { version = "=4.7.0", default-features = false, features = ["serialport"] }
opener = { version = "*", default-features = false }
ratatui-explorer = { version = "*", default-features = false }
tui-big-text = { version = "*", default-features = false }
md-5 = "0.10"
