[package]
name = "blog_core"
version = "0.1.0"
edition = "2021"
publish = false

[dependencies]
async-trait = "0.1"
axum = { version = "0.7", features = ["macros"] }
chrono = { version = "=0.4.45", default-features = false, features = ["clock", "std", "serde"] }
sea-orm = { version = "1.1", default-features = false, features = ["macros", "with-chrono", "with-json", "with-uuid"] }
sea-orm-migration = { version = "1.1", default-features = false }
serde = { version = "1", features = ["derive"] }
uuid = { version = "=1.29.0", features = ["serde"] }
