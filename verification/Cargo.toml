[package]
name = "webvfx"
version = "0.1.0"
edition = "2021"
publish = false

[dependencies]
serde_json = "=1.0.151"
tera = { version = "=2.4.0", default-features = false }
data-url = "=0.3.2"
url = "=2.5.8"
reqwest = { version = "=0.13.5", default-features = false, features = ["blocking"] }
blitz-dom = "=0.2.4"
blitz-html = "=0.2.0"
blitz-paint = "=0.2.1"
blitz-traits = "=0.2.0"
anyrender = "=0.6.2"
anyrender_vello_cpu = "=0.7.0"
