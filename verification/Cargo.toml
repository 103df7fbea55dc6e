[package]
name = "kitsune2_transport_iroh"
version = "0.1.0"
edition = "2021"
publish = false

[dependencies]
bytes = "=1.12.1"
iroh = { version = "=0.95.1", default-features = false }
kitsune2_api = "=0.4.1"
n0-watcher = "=0.5.0"
serde = { version = "=1.0.229", features = ["derive"] }
tokio = { version = "=1.54.1", features = ["rt", "macros", "sync", "time"] }
tracing = "=0.1.44"
url = "=2.5.8"

# Nothing here names the following four. iroh 0.95 takes pre-releases of them through
# ed25519-dalek, and does not compile with the later ones that would be picked otherwise.
der = { version = "=0.8.0-rc.10", default-features = false }
ed25519 = { version = "=3.0.0-rc.2", default-features = false }
pkcs8 = { version = "=0.11.0-rc.8", default-features = false }
spki = { version = "=0.8.0-rc.4", default-features = false }
