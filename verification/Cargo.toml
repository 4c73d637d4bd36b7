[package]
name = "task_service"
version = "0.1.0"
edition = "2021"
publish = false

[dependencies]
bytesize = "1"
chrono = "0.4"
rand = "0.8"
uuid = { version = "1", features = ["v4"] }
zip = { version = "2", default-features = false, features = ["aes-crypto", "deflate"] }
actix-cors = "0.7"
actix-multipart = "0.7"
actix-web = "4"
config = { version = "0.14", default-features = false, features = ["toml"] }
serde = { version = "1", features = ["derive"] }
tokio = { version = "1", features = ["rt-multi-thread", "macros", "sync", "time"] }
