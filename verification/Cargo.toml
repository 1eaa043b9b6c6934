[package]
name = "sol-4626-vault"
version = "0.1.0"
edition = "2021"
publish = false

[dependencies]
anchor-lang = { version = "*", features = ["init-if-needed"] }
anchor-spl = "*"
bytemuck = { version = "*", features = ["derive", "min_const_generics"] }
