[package]
name = "bad_kvm_switch"
version = "0.1.0"
edition = "2021"
publish = false

[dependencies]
anyhow = "=1.0.104"
clap = { version = "=4.6.7", features = ["derive"] }
ctrlc = { version = "=3.5.2", features = ["termination"] }
ddc = "=0.2.2"
ddc-hi = "=0.4.1"
ddc-i2c = "=0.2.2"
directories = "=6.0.0"
enable-ansi-support = "=0.3.1"
futures-lite = "2"
i2c-linux = "=0.1.2"
libc = "=0.2.191"
libloading = "=0.9.0"
nusb = "=0.2.9"
nvapi = "=0.1.4"
serde = { version = "=1.0.229", features = ["derive"] }
thiserror = "=2.0.21"
toml = "=1.1.8"
tracing = "=0.1.44"
tracing-appender = "=0.2.5"
tracing-subscriber = { version = "=0.3.23", features = ["env-filter", "fmt"] }
