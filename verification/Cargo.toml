[package]
name = "snake_net"
version = "0.1.0"
edition = "2021"
publish = false

[dependencies]
rand = "0.9"
serde = { version = "1", features = ["derive"] }
postcard = { version = "1", features = ["alloc"] }
bincode = "2"
macroquad = "0.4"
