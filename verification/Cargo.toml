[package]
name = "cred_x"
version = "0.1.0"
edition = "2021"
publish = false

[dependencies]
bytemuck = "=1.25.2"
pyth-sdk-solana = "=0.10.6"
# Not used by this crate directly: constrains the solana-program line that
# pyth-sdk-solana's open ">= 1.10" requirement resolves to, so that Pubkey
# still carries the borsh traits pyth-sdk-solana derives against.
solana-program = "1.18"
