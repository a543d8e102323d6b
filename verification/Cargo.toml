[package]
name = "geometry_engine"
version = "0.1.0"
edition = "2021"
publish = false

[dependencies]
geo = "*"
geo-types = "*"
geojson = "*"
serde = { version = "*", features = ["derive"] }
serde_json = "*"
