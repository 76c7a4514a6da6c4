[package]
name = "portfolio"
version = "0.1.0"
edition = "2021"
publish = false

[dependencies]
chrono = "=0.4.45"
serde = { version = "=1.0.229", features = ["derive"] }
serde_json = "=1.0.154"
validator = { version = "=0.20.0", features = ["derive"] }
sha1 = "=0.10.7"
hex = "=0.4.3"
regex = "=1.13.1"
anyhow = "=1.0.104"
thiserror = "=2.0.21"
log = "=0.4.35"
axum = "=0.8.9"
axum-extra = { version = "=0.10.3", features = ["typed-header"] }
tokio = { version = "=1.54.1", features = ["full"] }
redis = { version = "=1.8.1", features = ["tokio-comp"] }
sqlx = { version = "=0.8.6", default-features = false, features = ["postgres", "runtime-tokio", "chrono", "derive"] }
reqwest = { version = "=0.13.5", default-features = false, features = ["json", "query", "form", "native-tls"] }
resend-rs = "=0.35.1"
dotenvy = "=0.15.7"
envy = "=0.4.2"
envmode = "=0.1.3"
fern = { version = "=0.7.1", features = ["colored"] }
humantime = "=2.4.0"
aws-sdk-s3 = { version = "1", default-features = false, features = ["rt-tokio", "default-https-client", "behavior-version-latest"] }
aws-smithy-types = "1"
tower = "0.5"
tower-http = { version = "0.6", features = ["cors", "timeout", "trace"] }
