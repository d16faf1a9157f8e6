[package]
name = "kolibri_embedded_gui"
version = "0.1.0"
edition = "2021"
publish = false

[dependencies]
embedded-graphics = "=0.8.2"
embedded-iconoir = { version = "=0.2.3", features = ["12px", "16px", "18px", "24px", "32px"] }
foldhash = "=0.1.5"
heapless = "=0.8.0"
