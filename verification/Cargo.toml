[package]
name = "dro_synth"
version = "0.1.0"
edition = "2021"
publish = false

[dependencies]
nuked-opl3 = "=0.1.0"
