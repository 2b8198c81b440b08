[package]
name = "oracle_hooks"
version = "0.1.0"
edition = "2021"
publish = false

[dependencies]
anchor-lang = "=0.28.0"
num-derive = "=0.4.2"
num-traits = "=0.2.19"
solana-program = "=1.16.25"
spl-transfer-hook-interface = "=0.2.0"
switchboard-v2 = "=0.4.0"
thiserror = "=1.0.69"

[dev-dependencies]
bytemuck = "=1.25.2"
