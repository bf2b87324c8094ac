[package]
name = "fingerprint_sdk"
version = "0.1.0"
edition = "2021"
publish = false

[dependencies]
zeroize = "1"
semver = "1"
ed25519-dalek = "2"
serde = { version = "1", features = ["derive"] }
serde_json = "1"
sha2 = "0.10"
zip = { version = "2", default-features = false, features = ["deflate"] }
reqwest = { version = "0.12", default-features = false, features = ["json", "stream", "rustls-tls"] }
tokio = { version = "1", features = ["rt-multi-thread", "macros", "fs", "io-util"] }
futures-util = "0.3"
clap = { version = "4", features = ["derive"] }
libc = "0.2"
tempfile = "3"
thiserror = "1"
napi = { version = "2", features = ["async"] }
napi-derive = "2"
windows-sys = { version = "0.52", features = ["Win32_Storage_FileSystem", "Win32_Foundation"] }

[dev-dependencies]
ed25519-dalek = "2"
