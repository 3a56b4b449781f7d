[package]
name = "tun_forward"
version = "0.1.0"
edition = "2021"
publish = false

[dependencies]
futures = "=0.3.34"
netstack-smoltcp = "=0.2.4"
socket2 = "=0.5.10"
socket2-ext = "=0.1.1"
structopt = "=0.3.26"
tokio = { version = "=1.54.1", features = ["full"] }
tracing = "=0.1.44"
tracing-subscriber = "=0.3.23"
tun-rs = { version = "=2.8.13", features = ["async"] }
