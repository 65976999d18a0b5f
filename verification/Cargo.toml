[package]
name = "tmpc"
version = "0.1.0"
edition = "2021"
publish = false

[dependencies]
uuid = { version = "=1.27.0", features = ["v7"] }
mpd = "=0.1.0"
teloxide = { version = "=0.13.0", default-features = false, features = ["rustls", "ctrlc_handler"] }
takecell = "=0.1.1"
tokio = { version = "=1.53.2", features = ["macros", "rt-multi-thread", "fs"] }
log = "=0.4.34"
pretty_env_logger = "=0.5.0"
dotenv = "=0.15.0"
