[package]
name = "hookvibe"
version = "0.1.0"
edition = "2021"
publish = false

[dependencies]
winapi = { version = "0.3", features = ["errhandlingapi", "handleapi", "libloaderapi", "memoryapi", "minwindef", "processthreadsapi", "psapi", "synchapi", "winbase", "winnt"] }
buttplug = "*"
tokio = { version = "1", features = ["rt-multi-thread", "time", "sync"] }
futures = "0.3"
