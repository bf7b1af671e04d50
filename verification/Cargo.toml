[package]
name = "wrywebview"
version = "0.1.0"
edition = "2021"
publish = false

[dependencies]
wry = "0.57"
gtk = "0.18"
objc2 = "=0.6.5"
dispatch2 = "=0.3.1"
thiserror = "=2.0.21"
uniffi = "=0.32.2"
