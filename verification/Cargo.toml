[package]
name = "home_assist"
version = "0.1.0"
edition = "2021"
publish = false

[dependencies]
serde = { version = "=1.0.229", features = ["derive"] }
postcard = { version = "=1.1.3", features = ["alloc"] }
thiserror = "=2.0.21"
time = { version = "=0.3.55", features = ["macros", "local-offset", "formatting", "parsing"] }
ureq = { version = "=3.5.1", features = ["json"] }
url = "=2.5.8"
dotenvy = "=0.15.7"
rppal = { version = "=0.22.1", features = ["hal"] }
rill-ml = { version = "=1.5.6", features = ["serde"] }
csv = "=1.4.0"
ndarray = "=0.16.1"
linfa = "=0.8.1"
linfa-elasticnet = "=0.8.1"
