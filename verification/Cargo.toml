[package]
name = "isolate"
version = "0.1.0"
edition = "2021"
publish = false

[dependencies]
sha2 = "=0.10.9"
ark-bls12-381 = "=0.4.0"
ark-ec = "=0.4.2"
ark-serialize = "=0.4.2"
anchor-lang = "=0.30.1"
anchor-spl = "=0.30.1"
raydium-cp-swap = { version = "=0.1.1392", features = ["cpi"] }

[dev-dependencies]
ark-ff = "=0.4.2"
