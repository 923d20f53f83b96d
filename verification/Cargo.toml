[package]
name = "semantic"
version = "0.1.0"
edition = "2021"
publish = false

[dependencies]
serde_json = "=1.0.154"
serde = { version = "=1.0.229", features = ["derive"] }
serde_yaml = "=0.9.34"
tokio = { version = "=1.54.1", features = ["full"] }
reqwest = { version = "=0.12.28", default-features = false, features = ["json", "rustls-tls"] }
clap = { version = "=4.6.7", features = ["derive"] }
tonic = "=0.12.3"
tonic-web = "0.12"
tower-http = { version = "0.6", features = ["cors"] }
prost = "=0.13.5"
futures = "=0.3.34"
async-trait = "=0.1.92"
dotenv = "=0.15.0"
tracing = "=0.1.44"
tracing-subscriber = { version = "=0.3.23", features = ["env-filter"] }

[dev-dependencies]
regex = "=1.13.1"
