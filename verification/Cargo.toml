[package]
name = "d2r_multiplay"
version = "0.4.5"
edition = "2021"
publish = false

[dependencies]
anyhow = "=1.0.104"
chrono = "=0.4.45"
serde = { version = "=1.0.229", features = ["derive"] }
serde_json = "=1.0.154"
sysinfo = "=0.33.1"
thiserror = "=2.0.21"
tracing = "=0.1.44"
windows = { version = "=0.57.0", features = ["Win32_Foundation", "Win32_Security", "Win32_Security_Authorization", "Win32_System_Threading", "Win32_System_RemoteDesktop", "Win32_System_Registry", "Win32_System_Environment", "Win32_System_Ioctl", "Win32_System_IO", "Win32_Storage_FileSystem", "Win32_NetworkManagement_NetManagement"] }
