[package]
name = "geph-tui"
version = "0.1.0"
edition = "2021"
publish = false

[dependencies]
anyhow = "=1.0.104"
async-trait = "=0.1.92"
crossterm = "=0.28.1"
derive_more = "=2.0.1"
dirs = "=7.0.0"
geph5-broker-protocol = "=0.5.0"
geph5-misc-rpc = "=0.5.0"
isocountry = "=0.3.2"
nanorpc = "=0.1.13"
ratatui = "=0.29.0"
serde = { version = "=1.0.229", features = ["derive"] }
serde_json = "=1.0.154"
smol = "=2.0.2"
smolscale = "=0.4.16"
sys-locale = "=0.3.2"
tracing = "=0.1.44"
tracing-subscriber = "=0.3.23"
tui-textarea = "=0.7.0"
