[package]
name = "mysqlclient_sys"
version = "0.4.3"
edition = "2021"
publish = false

[dependencies]
bindgen = "0.71"
pkg-config = "0.3"
vcpkg = "0.2"
