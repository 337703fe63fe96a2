[package]
name = "xr2280x_hid"
version = "0.1.0"
edition = "2021"
publish = false

[dependencies]
hidapi = { version = "2.6", default-features = false, features = ["linux-native-basic-udev"] }
thiserror = "2"
log = "0.4"
