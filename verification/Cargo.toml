[package]
name = "ut1_timetable"
version = "0.1.0"
edition = "2021"
publish = false

[dependencies]
anyhow = "1"
chrono = "0.4"
dotenv = "0.15"
headless_chrome = "1"
ics = "0.5"
rand = "0.8"
tokio = { version = "1", features = ["macros", "rt-multi-thread", "time"] }
