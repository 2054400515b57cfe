[package]
name = "session_manager_wrapper"
version = "0.1.0"
edition = "2021"
publish = false

[dependencies]
aws-config = { version = "1", features = ["behavior-version-latest"] }
aws-sdk-ssm = "1"
aws-types = "1"
clap = { version = "4", features = ["cargo"] }
env_logger = "*"
log = "0.4"
portpicker = "0.1"
serde_json = "1"
subprocess = "*"
tokio = { version = "1", features = ["macros", "rt-multi-thread", "signal"] }
url = "2"
