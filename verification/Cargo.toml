[package]
name = "food_order"
version = "0.1.0"
edition = "2021"
publish = false

[dependencies]
actix-web = "4"
sqlx = { version = "0.7", default-features = false, features = ["postgres", "runtime-tokio", "macros"] }
serde = { version = "1", features = ["derive"] }
derive_more = "0.99"
futures-util = "0.3"
rand = "0.8"
