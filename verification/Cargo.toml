[package]
name = "sparko-esp-std"
version = "0.1.0"
edition = "2021"
publish = false

[dependencies]
anyhow = "1"
chrono = "0.4"
croner = "*"
embedded-graphics = "0.8"
embedded-hal = "1"
heapless = "0.8"
indexmap = "2"
log = "0.4"
mipidsi = "*"
simple-dns = "*"
url = "2"
esp-idf-svc = "*"
