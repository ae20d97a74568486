[package]
name = "windbg-mcp-rs"
version = "0.1.0"
edition = "2021"
publish = false

[dependencies]
axum = "=0.8.9"
rmcp = { version = "0", features = ["server", "transport-streamable-http-server"] }
serde = { version = "=1.0.229", features = ["derive"] }
serde_json = "=1.0.154"
tokio = { version = "=1.54.1", features = ["rt-multi-thread", "net", "time"] }
tokio-util = "=0.7.20"
tracing = "=0.1.44"
windows = { version = "=0.62.2", features = ["Win32_Foundation", "Win32_Storage_FileSystem", "Win32_Security", "Win32_System_Diagnostics_Debug_Extensions", "Win32_System_Kernel", "Win32_System_SystemInformation", "Win32_System_Threading", "Win32_System_Memory", "Win32_System_Time"] }
