[package]
name = "geo_coverage"
version = "0.1.0"
edition = "2021"
publish = false

[dependencies]
geo = "=0.33.1"
geo-clipper = "=0.8.0"
geojson = "=1.0.0"
serde = { version = "*", features = ["derive"] }
serde_with = "*"
axum = "*"
tokio = { version = "*", features = ["full"] }
tower-http = { version = "*", features = ["trace"] }
tracing = "*"
tracing-subscriber = "*"
eyre = "*"
