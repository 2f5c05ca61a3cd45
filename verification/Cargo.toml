[package]
name = "datafusion_csv"
version = "0.1.0"
edition = "2021"
publish = false

[dependencies]
arrow = "53"
arrow-array = "53"
arrow-schema = "53"
async-trait = "0.1"
bytes = "1"
csv = "1"
datafusion = { version = "42", default-features = false }
datafusion-common = { version = "42", default-features = false }
datafusion-physical-expr = { version = "42", default-features = false }
futures = "0.3"
object_store = { version = "0.11", features = ["http"] }
url = "2"
