[package]
name = "poem_gen"
version = "0.1.0"
edition = "2021"
publish = false

[dependencies]
rand = "=0.8.8"
async-openai = "0.28"
tokio = { version = "=1.54.1", features = ["macros", "rt-multi-thread"] }
