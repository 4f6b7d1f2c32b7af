[package]
name = "nd_zipfile"
version = "0.1.0"
edition = "2021"
publish = false

[dependencies]
zip = { version = "=8.6.0", default-features = false, features = ["deflate", "bzip2", "aes-crypto", "lzma"] }
