[package]
name = "media_recommendation_engine"
version = "0.1.0"
edition = "2021"
publish = false

[dependencies]
sha2 = "=0.10.9"
password-auth = "=1.0.0"
syn = "2"
