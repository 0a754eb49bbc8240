[package]
name = "clr_image"
version = "0.1.0"
edition = "2021"
publish = false

[dependencies]
arrayvec = "0.7"
bitflags = "1.3"
num_enum = "0.5"
