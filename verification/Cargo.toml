[package]
name = "stock_simulation_engine"
version = "0.1.0"
edition = "2021"
publish = false

[dependencies]
argon2 = "0.5"
uuid = { version = "1", features = ["v4"] }
validator = "0.20"
axum = { version = "0.8", features = ["ws"] }
jiff = "0.2"
jsonwebtoken = "9"
chrono = "0.4"
serde = { version = "1", features = ["derive"] }
tokio = { version = "1", features = ["full"] }
dotenv = "0.15"
rand = "0.8"
rand_distr = "0.4"
async-trait = "0.1"
futures-util = "0.3"
tower-http = { version = "0.6", features = ["cors"] }
toasty = { version = "*", features = ["serde", "migration"] }
