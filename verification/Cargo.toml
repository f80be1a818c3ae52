[package]
name = "utf8_temporal"
version = "0.1.0"
edition = "2021"
publish = false

[dependencies]
chrono = "=0.4.45"
chrono-tz = "=0.8.6"
polars-arrow = { version = "=0.32.1", default-features = false }
polars-core = { version = "=0.32.1", default-features = false, features = ["dtype-date", "dtype-datetime", "dtype-time", "temporal", "timezones"] }
polars-ops = { version = "=0.32.1", default-features = false, features = ["timezones"] }
