[package]
name = "greentic_dev"
version = "0.1.0"
edition = "2021"
publish = false

[dependencies]
semver = "=1.0.28"
sha2 = "=0.10.9"
unic-langid = "=0.9.6"
anyhow = "=1.0.104"
serde = { version = "=1.0.229", features = ["derive"] }
serde_json = "=1.0.154"
toml = "=0.8.23"
clap = { version = "=4.6.7", features = ["derive"] }
dirs = "=7.0.0"
which = "=8.0.6"
sys-locale = "=0.3.2"
reqwest = { version = "=0.12.28", default-features = false, features = ["blocking"] }
flate2 = "=1.1.10"
tar = "=0.4.46"
zip = { version = "=9.2.2", default-features = false, features = ["deflate"] }
rpassword = "=7.5.4"
convert_case = "=0.12.0"
jsonschema = { version = "*", default-features = false }
