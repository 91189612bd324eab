[package]
name = "diesel_sqlite_session"
version = "0.1.0"
edition = "2021"
publish = false

[dependencies]
diesel = { version = "=2.3.14", default-features = false, features = ["sqlite"] }
libsqlite3-sys = "=0.38.2"
thiserror = "=2.0.21"
