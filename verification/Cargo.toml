[package]
name = "pdp"
version = "0.1.0"
edition = "2021"
publish = false

[dependencies]
async-trait = "0.1"
axum = "0.7"
base64 = "0.22"
chrono = "0.4"
confique = { version = "0.3", default-features = false, features = ["yaml", "toml"] }
env_logger = "0.11"
http = "1"
log = "0.4"
moka = { version = "0.12", features = ["future"] }
nix = { version = "0.29", features = ["signal", "process"] }
once_cell = "1"
rand = "0.8"
redis = { version = "0.27", default-features = false, features = ["tokio-comp", "connection-manager"] }
reqwest = { version = "0.12", default-features = false, features = ["json"] }
serde = { version = "1", features = ["derive"] }
serde_json = "1"
serde_yaml = "0.9"
sha2 = "0.10"
signal-hook = "0.3"
thiserror = "1"
tokio = { version = "1", features = ["full"] }
tokio-util = "0.7"
url = "2"
utoipa = { version = "5", features = ["axum_extras"] }
utoipa-axum = "0.1"
utoipa-scalar = { version = "0.2", features = ["axum"] }
which = "6"
