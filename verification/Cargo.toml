[package]
name = "valmiki_visitors"
version = "0.1.0"
edition = "2021"
publish = false

[dependencies]
actix-web = { version = "=4.15.0", default-features = false, features = ["macros", "cookies"] }
base64 = "=0.22.1"
cookie = { version = "=0.18.2", features = ["private", "key-expansion"] }
rand = "=0.10.3"
