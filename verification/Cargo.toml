[package]
name = "data_agent"
version = "0.1.0"
edition = "2021"
publish = false

[dependencies]
polars = { version = "=0.51.0", features = ["lazy", "sql", "csv", "json", "parquet"] }
calamine = "0.30"
reqwest = { version = "0.12", default-features = false, features = ["blocking", "rustls-tls"] }
uuid = { version = "1", features = ["v4"] }
