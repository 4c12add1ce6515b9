[package]
name = "dry_dock"
version = "0.1.0"
edition = "2021"
publish = false

[dependencies]
rusqlite = { version = "=0.40.2", features = ["bundled"] }
r2d2 = "=0.8.10"
r2d2_sqlite = "=0.35.0"
rss = "=2.1.2"
atom_syndication = "=0.12.10"
chrono = "=0.4.45"
reqwest = { version = "=0.13.5", default-features = false, features = ["blocking", "json"] }
serde = { version = "=1.0.229", features = ["derive"] }
serde_json = "=1.0.151"
dirs = "=7.0.0"
webbrowser = "=1.2.4"
opener = "=0.9.0"
tokio = { version = "*", features = ["rt-multi-thread"] }
pulldown-cmark = "*"
