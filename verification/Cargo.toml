[package]
name = "storage_config"
version = "0.1.0"
edition = "2021"
publish = false

[dependencies]
object_store = { version = "*", features = ["aws", "azure", "gcp"] }
url = "*"
serde = { version = "*", features = ["derive"] }
datafusion-objectstore-hdfs = "*"

[dev-dependencies]
futures = "*"
