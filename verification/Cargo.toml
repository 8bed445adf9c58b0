[package]
name = "geoarrow_rs_c"
version = "0.1.0"
edition = "2021"
publish = false

[dependencies]
arrow-schema = { version = "=59.3.2", features = ["ffi"] }
arrow-data = { version = "=59.3.2", features = ["ffi"] }
geoarrow-schema = "=0.9.0"
