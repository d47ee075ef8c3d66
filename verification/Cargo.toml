[package]
name = "todo_service"
version = "0.1.0"
edition = "2021"
publish = false

[dependencies]
chrono = "=0.4.45"
chrono-tz = "=0.10.4"
diesel = { version = "=2.3.13", features = ["postgres", "r2d2"] }
dotenv = "*"
env_logger = "*"
log = "*"
ntex = { version = "=2.18.0", features = ["tokio"] }
r2d2 = "*"
serde = { version = "*", features = ["derive"] }
utoipa = "*"
