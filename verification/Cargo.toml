[package]
name = "geoviz"
version = "0.1.0"
edition = "2021"
publish = false

[dependencies]
fltk = "1"
fltk-theme = "*"
tinyfiledialogs = "3"
