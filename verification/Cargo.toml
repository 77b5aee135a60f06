[package]
name = "robot"
version = "0.1.0"
edition = "2021"
publish = false

[dependencies]
nb = "=1.1.0"
embedded-hal = "=1.0.0"
heapless = "=0.8.0"
microbit-v2 = "*"
cortex-m = "0.7"
cortex-m-rt = "0.7"
rtt-target = "*"
panic-rtt-target = "*"
lsm303agr = "1"
