[package]
name = "claw_editor"
version = "0.1.0"
edition = "2021"
publish = false

[dependencies]
wxrust = "=0.0.1-alpha"
