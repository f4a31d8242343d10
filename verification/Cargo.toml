[package]
name = "mycelium_station"
version = "0.1.0"
edition = "2021"
publish = false

[dependencies]
chrono = "*"
serde = { version = "*", features = ["derive"] }
serde_json = "*"
log = "*"
retry = "*"
thingbuf = "*"
uuid = { version = "*", features = ["serde"] }
rand = "*"
heapless = "*"
embedded-svc = "*"
esp-idf-svc = "*"
esp-idf-hal = "*"
esp-idf-sys = "*"
bluedroid = "*"
