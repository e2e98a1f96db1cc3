[package]
name = "native_plugin_lib"
version = "0.1.0"
edition = "2021"
publish = false

[dependencies]
byteorder = "=1.5.0"
eyre = "=0.6.14"
konst = "=0.3.17"
memchr = "=2.8.3"
pelite = "=0.10.0"
thiserror = "=2.0.21"
windows = { version = "=0.58.0", features = ["Win32_System_SystemInformation"] }
