[package]
name = "usrp_bridge"
version = "0.1.0"
edition = "2021"
publish = false

[dependencies]
byteorder = "=1.5.0"
rand = "=0.8.8"
rubato = "=0.14.1"
tokio = { version = "=1.54.1", features = ["macros", "rt-multi-thread", "net", "io-util", "sync"] }
serenity = { version = "=0.12.5", default-features = false, features = ["cache", "client", "gateway", "http", "model", "rustls_backend"] }
songbird = { version = "=0.4.6", default-features = false, features = ["serenity", "gateway", "driver", "receive", "rustls"] }
poise = { version = "0.6", default-features = false, features = ["cache"] }
chrono = { version = "=0.4.45", default-features = false, features = ["clock"] }
log = "=0.4.34"
fern = "=0.6.2"
humantime = "=2.4.0"
dotenv = "=0.15.0"
