[package]
name = "arena_rollback"
version = "0.1.0"
edition = "2021"
publish = false

[dependencies]
matchbox_socket = "=0.14.0"
futures = "=0.3.34"
