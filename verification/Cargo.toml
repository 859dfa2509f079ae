[package]
name = "node_core"
version = "0.1.0"
edition = "2021"
publish = false

[dependencies]
tinymqtt = "*"
smoltcp = "*"
nb = "*"
rtt-target = "*"
esp-hal = "*"
esp-wifi = "*"
esp-alloc = "*"
esp-bootloader-esp-idf = "*"
