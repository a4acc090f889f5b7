[package]
name = "p6m"
version = "0.1.0"
edition = "2021"
publish = false

[dependencies]
anyhow = "=1.0.104"
atty = "=0.2.14"
aws-config = "=1.13.0"
aws-sdk-sso = "=1.117.0"
base64 = "=0.22.1"
camino = "=1.2.6"
chrono = "=0.4.45"
clap = { version = "=4.6.7", features = ["derive", "cargo"] }
clap_complete = "=4.6.11"
dirs = "=5.0.1"
globset = "=0.4.20"
hex = "=0.4.3"
inquire = "=0.7.5"
jsonwebtokens = "=1.2.0"
k8s-openapi = { version = "=0.27.1", features = ["latest"] }
kube = { version = "=3.1.0", default-features = false, features = ["client", "config", "rustls-tls"] }
log = "=0.4.34"
loggerv = "=0.7.2"
minijinja = "=2.24.0"
octocrab = "=0.40.0"
reqwest = { version = "=0.12.28", default-features = false, features = ["json", "rustls-tls"] }
serde = { version = "=1.0.229", features = ["derive"] }
serde_json = "=1.0.154"
serde_yaml = "0.9"
sha1 = "=0.10.7"
tokio = { version = "=1.54.1", features = ["full"] }
url = "=2.5.8"
urlencoding = "=2.1.3"
walkdir = "=2.5.0"
webbrowser = "=1.2.5"
