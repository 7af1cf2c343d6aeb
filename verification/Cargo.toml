[package]
name = "denim"
version = "0.1.0"
edition = "2021"
publish = false

[dependencies]
async-trait = "=0.1.92"
axum = { version = "=0.8.9", features = ["multipart"] }
axum-login = "=0.18.0"
base64 = "=0.22.1"
bcrypt = "=0.17.1"
csv = "=1.4.0"
dotenvy = "=0.15.7"
email_address = "=0.2.9"
futures = "=0.3.34"
icu = "=2.4.0"
infer = "=0.19.0"
jiff = "=0.2.38"
jiff-icu = "=0.2.2"
maud = { version = "=0.27.0", features = ["axum"] }
rand = "=0.9.5"
rmp-serde = "=1.3.1"
rust-s3 = "0.37"
secrecy = "=0.10.3"
serde = { version = "=1.0.229", features = ["derive"] }
snafu = "=0.8.9"
sqlx = { version = "=0.8.6", default-features = false, features = ["postgres", "runtime-tokio", "uuid", "time", "migrate"] }
time = "=0.3.55"
tokio = { version = "=1.54.1", features = ["full"] }
tokio-stream = { version = "=0.1.19", features = ["sync"] }
tower-http = { version = "=0.6.11", features = ["trace"] }
tracing = "=0.1.44"
tracing-subscriber = { version = "=0.3.23", features = ["env-filter"] }
uuid = { version = "=1.29.0", features = ["v4", "serde"] }
zip = { version = "=2.6.1", default-features = false, features = ["aes-crypto", "deflate"] }
