[package]
name = "ntfs_recovery"
version = "0.1.0"
edition = "2021"
publish = false

[dependencies]
byteorder = "1"
chrono = "0.4"
hex = "0.4"
serde = { version = "1", features = ["derive"] }
serde_json = "1"
walkdir = "2"
winapi = { version = "0.3", features = ["fileapi", "handleapi", "winnt", "winbase", "errhandlingapi", "processthreadsapi", "securitybaseapi", "ioapiset", "winioctl"] }
