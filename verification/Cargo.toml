[package]
name = "dray"
version = "0.1.0"
edition = "2021"
publish = false

[dependencies]
anyhow = "=1.0.104"
async-trait = "=0.1.92"
bytes = "=1.12.1"
envy = "=0.4.2"
futures = "=0.3.34"
log = "=0.4.34"
serde = { version = "=1.0.229", features = ["derive"] }
thrussh = "=0.49.0"
thrussh-keys = "=0.44.0"
tokio = { version = "=1.54.1", features = ["sync"] }
