[package]
name = "sol_programs"
version = "0.1.0"
edition = "2021"
publish = false

[dependencies]
anchor-lang = { version = "=0.28.0", features = ["init-if-needed"] }
anchor-spl = { version = "=0.28.0", default-features = false, features = ["token", "token_2022"] }
# Anchor's `#[account(zero_copy)]` derives bytemuck's `Pod` and `Zeroable` by path,
# so app/ (the zero-copy data container account) needs the crate itself.
bytemuck = { version = "1", features = ["derive", "min_const_generics"] }
