[package]
name = "procscope"
version = "0.1.0"
edition = "2021"
publish = false

[dependencies]
winapi = { version = "0.3", features = ["tlhelp32", "processthreadsapi", "handleapi", "winnt", "winbase", "errhandlingapi", "psapi", "memoryapi", "dbghelp", "minwindef"] }
