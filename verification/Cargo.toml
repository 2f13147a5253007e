[package]
name = "ip7z"
version = "0.1.0"
edition = "2021"
publish = false

[dependencies]
bitflags = "*"
com = "*"
filetime = "*"
libloading = "*"
num_enum = "*"
strum = "*"
strum_macros = "*"
thiserror = "*"
tracing = "*"
tracing-subscriber = "*"
widestring = "*"
windows-core = "*"
winreg = "*"
