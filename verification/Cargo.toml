[package]
name = "plotters-vello"
version = "0.1.0"
edition = "2021"
publish = false

[dependencies]
accesskit = "0.21"
masonry = "0.4"
parley = "0.6"
plotters = { version = "0.3", default-features = false }
plotters-backend = "0.3"
smallvec = "1"
tracing = "0.1"
vello = "0.6"
