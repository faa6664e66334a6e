[package]
name = "perf_event_data"
version = "0.1.0"
edition = "2021"
publish = false

[dependencies]
perf-event-open-sys = "*"
