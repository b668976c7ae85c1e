[package]
name = "ipc_guard"
version = "0.1.0"
edition = "2021"
publish = false

[dependencies]
libc = "0.2"
interprocess = { version = "2", features = ["tokio"] }

[dependencies.windows-sys]
version = "*"
features = [
    "Win32_Foundation",
    "Win32_Security",
    "Win32_Storage_FileSystem",
    "Win32_System_IO",
    "Win32_System_Pipes",
    "Win32_System_Threading",
]
