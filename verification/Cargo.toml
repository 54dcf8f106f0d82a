[package]
name = "pulse_generator"
version = "0.1.0"
edition = "2021"
publish = false

[dependencies]
pio = "0.2"
rp2040-hal = "0.10"
rp-pico = "0.9"
usb-device = "0.3"
usbd-serial = "0.2"
cortex-m = "0.7"
embedded-hal = "1.0"
defmt = "0.3"
defmt-rtt = "0.4"
panic-probe = "0.3"
