[package]
name = "coffer_sbi"
version = "0.1.0"
edition = "2021"
publish = false

[dependencies]
buddy_system_allocator = "*"
fast-trap = "*"
log = "*"
riscv = "*"
sbi-spec = "*"
spin = "*"
