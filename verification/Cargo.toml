[package]
name = "wwn_definitions"
version = "0.1.0"
edition = "2021"
publish = false

[dependencies]
chrono = { version = "0.4", features = ["serde"] }
log = "0.4"
phf = { version = "0.11", features = ["macros"] }
serde = { version = "1", features = ["derive"] }
simple_logger = "5"
strum = { version = "0.26", features = ["derive"] }
thiserror = "1"
