[package]
name = "ws63_wifi"
version = "0.1.0"
edition = "2021"
publish = false

[dependencies]
smoltcp = "0.12"
embassy-time = "0.5"
embassy-executor = "0.10"
static_cell = "2.1"
hisi-rf = "=0.1.0-alpha.116"
hisi-rf-ws63 = "=0.1.0-alpha.102"
hisi-rtos = "=0.1.0-alpha.25"
hisi-hal = "=0.7.0-alpha.9"
hisi-riscv-rt = "0.5"
hisi-panic-handler = "0.1"
ws63-hal = "0.3"
ws63-rt = "0.2"
ws63-radio-sys = "=0.1.0-alpha.26"
