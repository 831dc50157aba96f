[package]
name = "wlan_profiles"
version = "0.1.0"
edition = "2021"
publish = false

[dependencies]
windows = { version = "=0.57.0", features = ["Data_Xml_Dom", "Foundation_Collections", "Win32_Foundation", "Win32_NetworkManagement_WiFi"] }
