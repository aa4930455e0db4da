[package]
name = "ep_server"
version = "0.1.0"
edition = "2021"
publish = false

[dependencies]
hashbrown = "=0.17.1"
spin = "=0.12.3"
conquer-once = { version = "=0.4.0", default-features = false }
async-trait = "=0.1.92"
futures-util = { version = "=0.3.34", default-features = false }
