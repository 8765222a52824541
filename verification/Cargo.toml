[package]
name = "dioxus-bevy"
version = "0.1.0"
edition = "2021"

[dependencies]
crossbeam-channel = "=0.5.17"
dioxus = { version = "=0.7.10", default-features = false, features = ["macro", "html", "signals", "hooks"] }
dioxus-core = "=0.7.10"
proc-macro2 = "1"
quote = "1"
syn = { version = "2", features = ["full"] }
wgpu = { version = "26", default-features = false }
