[package]
name = "mitutoyo_modbus"
version = "0.1.0"
edition = "2021"
publish = false

[dependencies]
rmodbus = "*"
byteorder = "*"
