[package]
name = "meal_planner"
version = "0.1.0"
edition = "2021"
publish = false

[dependencies]
anyhow = "=1.0.104"
async-openai = { version = "=0.43.0", features = ["chat-completion"] }
chrono = { version = "=0.4.45", features = ["serde"] }
dirs = "=7.0.0"
opentelemetry = "=0.33.1"
opentelemetry-appender-tracing = "=0.33.1"
opentelemetry-otlp = { version = "=0.33.1", features = ["grpc-tonic", "logs", "trace"] }
opentelemetry_sdk = { version = "=0.33.1", features = ["rt-tokio", "logs", "trace"] }
opentelemetry-stdout = "=0.33.1"
reqwest = { version = "=0.12.28", default-features = false, features = ["json", "rustls-tls"] }
rusqlite = { version = "=0.41.1", features = ["bundled"] }
rustyline = "=19.0.0"
serde = { version = "=1.0.229", features = ["derive"] }
serde_json = "=1.0.154"
tokio = { version = "=1.54.1", features = ["full"] }
toml = "=1.1.8"
tracing = "=0.1.44"
tracing-opentelemetry = "=0.34.0"
tracing-subscriber = { version = "=0.3.23", features = ["env-filter"] }
