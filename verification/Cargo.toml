[package]
name = "mssf_core"
version = "0.1.0"
edition = "2021"
publish = false

[dependencies]
bitflags = "=2.13.2"
log = "=0.4.34"
tokio = { version = "=1.54.1", default-features = false, features = ["sync", "rt", "rt-multi-thread", "time", "macros"] }
tracing = "=0.1.44"
tracing-subscriber = "=0.3.23"
windows = { version = "0.58", default-features = false, features = ["Win32_System_Diagnostics_Debug"] }
windows-core = "=0.100.0"
