[package]
name = "logi_switch"
version = "0.1.0"
edition = "2021"
publish = false

[dependencies]
hidapi = { version = "=2.6.7", default-features = false, features = ["linux-native-basic-udev"] }
notify-rust = "=4.18.2"
device_query = "=4.0.1"
input-linux = "=0.7.1"
libc = "=0.2.191"
