[package]
name = "iskra"
version = "0.1.0"
edition = "2021"
publish = false

[dependencies]
chrono = { version = "=0.4.45", features = ["serde"] }
serde = { version = "=1.0.229", features = ["derive"] }
toml = "=0.8.23"
shellexpand = "=3.1.2"
thiserror = "=1.0.69"
# Fresh ids are random version-4 UUIDs; `uuid` makes them without the
# system GLib library that `glib::uuid_string_random` would need.
uuid = { version = "=1.29.0", features = ["v4"] }
