[package]
name = "overseer"
version = "0.1.0"
edition = "2021"
publish = false

[dependencies]
async-trait = "*"
bollard = "*"
delay_timer = "*"
futures = "*"
notify = "*"
openssh = "*"
serde = { version = "1", features = ["derive"] }
serde_yaml = "*"
thiserror = "*"
tokio = { version = "1", features = ["full"] }
