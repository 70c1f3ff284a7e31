[package]
name = "celeste_splitter"
version = "0.1.0"
edition = "2021"
publish = false

[dependencies]
asr = "*"
bytemuck = "*"
static_locks = "*"
