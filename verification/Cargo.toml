[package]
name = "dsf_client"
version = "0.1.0"
edition = "2021"
publish = false

[dependencies]
rand = "=0.10.3"
chrono = "=0.4.45"
chrono-english = "=0.2.1"
chrono-humanize = "=0.2.3"
colored = "=3.1.1"
humantime = "=2.4.0"
futures = "=0.3.34"
