[package]
name = "aiocogeo"
version = "0.1.0"
edition = "2021"
publish = false

[dependencies]
byteorder = "1"
bytes = "1"
flate2 = "1"
jpeg-decoder = "0.3"
object_store = "0.10"
thiserror = "1"
tiff = "0.9"
