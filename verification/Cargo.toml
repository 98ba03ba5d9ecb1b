[package]
name = "barcore"
version = "0.1.0"
edition = "2021"
publish = false

[dependencies]
macaddr = "1"
ab_glyph = "0.2"
rustybuzz = "*"
tokio = { version = "1", features = ["rt-multi-thread", "sync", "time"] }
tokio-stream = "0.1"
log = "0.4"
mio = { version = "1", features = ["os-poll", "os-ext"] }
chrono = "0.4"
neli = "*"
swayipc = "*"
itertools = "*"
bytemuck = { version = "1", features = ["derive"] }
bitflags = "2"
derive_builder = "*"
pretty_env_logger = "*"
