[package]
name = "notify_engine"
version = "0.1.0"
edition = "2021"
publish = false

[dependencies]
pulldown-cmark = "*"
email_address = "*"
hmac = "*"
sha2 = "*"
lettre = { version = "*", default-features = false, features = ["smtp-transport", "builder"] }
reqwest = { version = "*", default-features = false }
reqwest-middleware = "*"
async-trait = "*"
