[package]
name = "oneloop"
version = "0.1.0"
edition = "2021"
publish = false

[dependencies]
symbolica = { version = "=3.0.2", default-features = false, features = ["integer-malachite", "float-astro", "tracing_max_level_info"] }
