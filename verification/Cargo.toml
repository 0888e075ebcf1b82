[package]
name = "touch_panel"
version = "0.1.0"
edition = "2021"
publish = false

[dependencies]
arrayvec = { version = "0.7", default-features = false }
cortex-m = "0.6"
cortex-m-rtic = "0.5"
stm32f4xx-hal = { version = "0.8", features = ["stm32f401", "usb_fs", "rt"] }
embedded-hal = "0.2"
usb-device = "0.2"
vl53l0x = "0.3"
shared-bus-rtic = "0.2"
panic-halt = "0.2"
