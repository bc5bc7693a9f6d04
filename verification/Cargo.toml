[package]
name = "usb_echo"
version = "0.1.0"
edition = "2021"
publish = false

[dependencies]
cortex-m = "=0.7.7"
cortex-m-rt = "=0.7.7"
panic-semihosting = "=0.7.0"
stm32f4xx-hal = { version = "=0.13.2", features = ["stm32f429", "usb_fs"] }
usb-device = "0.2"
usbd-serial = "0.1"
