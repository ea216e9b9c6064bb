[package]
name = "touchtablet"
version = "0.1.0"
edition = "2021"
publish = false

[dependencies]
winapi = { version = "0.3", features = ["winuser", "hidpi", "hidsdi", "hidusage", "libloaderapi", "errhandlingapi", "minwindef", "windef", "ntdef", "impl-default", "impl-debug"] }
