[package]
name = "securedraw"
version = "0.1.0"
edition = "2021"
publish = false

[dependencies]
anchor-lang = "=0.31.2"
switchboard-on-demand = "=0.13.0"
bytemuck = "*"
