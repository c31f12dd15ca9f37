[package]
name = "tg_rcore_tutorial"
version = "0.1.0"
edition = "2021"
publish = false

[dependencies]
riscv = "=0.10.1"
tg-console = "=0.4.2-preview.1"
tg-kernel-context = "=0.4.2-preview.1"
tg-linker = "=0.4.2-preview.1"
tg-sbi = "=0.4.2-preview.1"
tg-syscall = { version = "=0.4.2-preview.1", features = ["kernel"] }
