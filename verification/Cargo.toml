[package]
name = "hover_arena"
version = "0.1.0"
edition = "2021"
publish = false

[dependencies]
uuid = { version = "=1.29.0", features = ["v4", "js"] }
nalgebra = "=0.33.3"
rapier3d = "=0.22.0"
crossbeam = "=0.8.5"
futures = "=0.3.34"
log = "=0.4.34"
serde = { version = "=1.0.229", features = ["derive"] }
tokio = { version = "=1.54.1", features = ["rt-multi-thread", "macros"] }
async-trait = "=0.1.92"
dotenv = "=0.15.0"
env_logger = "=0.11.11"
wasm-bindgen = "=0.2.129"
wasm-logger = "=0.2.0"
