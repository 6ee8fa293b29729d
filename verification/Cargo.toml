[package]
name = "ui_element"
version = "0.1.0"
edition = "2021"
publish = false

[dependencies]
anyhow = "*"
async-trait = "*"
git2 = "*"
log = "*"
parking_lot = "*"
