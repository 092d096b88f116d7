[package]
name = "cmdb_agent"
version = "0.1.0"
edition = "2021"
publish = false

[dependencies]
smbios-lib = "=0.9.4"
hmac = "=0.12.1"
sha1 = "=0.10.7"
hex = "=0.4.3"
libc = "=0.2.190"
default-net = "=0.22.0"
serde = { version = "=1.0.229", features = ["derive"] }
toml = "*"
clap = { version = "=4.6.7", features = ["derive"] }
log = "=0.4.34"
simple_logger = "=5.2.0"
signal-hook = "=0.4.5"
anstyle = "=1.0.14"
tokio = { version = "=1.53.2", features = ["rt-multi-thread", "macros", "time", "signal"] }
actix-web = { version = "=4.15.0", default-features = false, features = ["macros"] }
tokio-cron-scheduler = { version = "=0.15.1", features = ["signal"] }
reqwest = { version = "=0.11.27", default-features = false, features = ["json"] }
reqwest-middleware = "=0.2.5"
reqwest-retry = "=0.2.3"
task-local-extensions = "=0.1.4"
async-trait = "=0.1.92"
