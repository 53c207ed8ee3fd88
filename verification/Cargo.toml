[package]
name = "postgres_raw"
version = "0.1.0"
edition = "2021"
publish = false

[dependencies]
bytes = "1"
fallible-iterator = "0.2"
futures = "0.3"
log = "0.4"
pin-project-lite = "0.2"
postgres-protocol = "0.6"
postgres-types = "0.2"
