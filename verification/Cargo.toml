[package]
name = "quality_metric"
version = "0.1.0"
edition = "2021"
publish = false

[dependencies]
sysinfo = "*"
