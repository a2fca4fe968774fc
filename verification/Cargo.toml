[package]
name = "moto_tuning"
version = "0.1.0"
edition = "2021"
publish = false

[dependencies]
actix-web = { version = "4", default-features = false, features = ["macros"] }
parking_lot = "0.12"
rustc_apfloat = "0.2"
serde = { version = "1", features = ["derive"] }
tokio = "1"
