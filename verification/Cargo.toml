[package]
name = "case2geojson"
version = "0.1.0"
edition = "2021"
publish = false

[dependencies]
oxigraph = { version = "0.4", default-features = false }
json-ld = "0.21"
geojson = "0.24"
serde_json = "1"
static-iref = "3"
tokio = { version = "1", features = ["rt"] }

[dev-dependencies]
iref = "3"
