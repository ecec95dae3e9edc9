[package]
name = "movies_api"
version = "0.1.0"
edition = "2021"
publish = false

[dependencies]
serde = { version = "1", features = ["derive"] }
csv = "1"
thiserror = "*"
config = { version = "*", default-features = false, features = ["yaml"] }
secrecy = { version = "*", features = ["serde"] }
serde-aux = "*"
sqlx = { version = "*", default-features = false, features = ["postgres", "runtime-tokio"] }
axum = "*"
tokio = { version = "1", features = ["macros", "rt-multi-thread", "net"] }
tracing = "*"
once_cell = "1"
dotenv = "*"
