[package]
name = "chat_core"
version = "0.1.0"
edition = "2021"
publish = false

[dependencies]
itertools = "=0.15.0"
teloxide = "=0.5.3"
openai-api = "=0.1.4"
tokio = { version = "1", features = ["full"] }
tokio-stream = "0.1"
# teloxide-core 0.3 uses tokio-util's codec module without enabling that
# feature itself; naming the feature here turns it on so teloxide builds
tokio-util = { version = "0.6", features = ["codec"] }
futures = "0.3"
chrono = "*"
lazy_static = "1"
log = "*"
pretty_env_logger = "*"
