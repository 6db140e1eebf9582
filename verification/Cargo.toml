[package]
name = "usb_uhci"
version = "0.1.0"
edition = "2021"
publish = false

[dependencies]
log = "0.4"
owning_ref = "0.4"
spin = "0.5.2"
volatile = "0.2"
