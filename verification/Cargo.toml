[package]
name = "dlopen"
version = "0.1.0"
edition = "2021"
publish = false

[dependencies]
libc = "0.2"
lazy_static = "1"
winapi = { version = "0.3", features = ["winnt", "minwindef", "basetsd", "winerror", "libloaderapi", "errhandlingapi", "dbghelp", "processthreadsapi"] }
