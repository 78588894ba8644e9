[package]
name = "konnyaku"
version = "0.1.0"
edition = "2021"
publish = false

[dependencies]
directories = "*"
serde = { version = "*", features = ["derive"] }
serde_json = "*"
tokio = { version = "*", features = ["full"] }
reqwest = { version = "*", features = ["stream"] }
futures-util = "*"
hf-hub = { version = "*", features = ["tokio"] }
llama-cpp-2 = "*"
