[package]
name = "poltergeist"
version = "0.1.0"
edition = "2021"
publish = false

[dependencies]
color-eyre = "=0.6.5"
glam = "=0.34.1"
input-event-codes = "=6.2.0"
manifest-dir-macros = "=0.1.20"
mint = "=0.5.9"
rustc-hash = "=2.1.3"
stardust-xr-fusion = "=0.43.2"
stardust-xr-molecules = "=0.29.0"
tokio = { version = "=1.53.2", features = ["full"] }
