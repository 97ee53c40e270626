[package]
name = "cppust_gen"
version = "0.1.0"
edition = "2021"
publish = false

[dependencies]
getopts = "0.2"
syn = { version = "2", features = ["full"] }
thiserror = "2"
