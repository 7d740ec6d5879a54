[package]
name = "axhal"
version = "0.1.0"
edition = "2021"
publish = false

[dependencies]
lazyinit = "0.2"
aarch64-cpu = "11"
axconfig = "=0.2.2-preview.2"
axplat = "0.4"
axplat-dyn = "0.10"
cfg-if = "1"
memory_addr = "0.4"
riscv = "0.16"
sbi-rt = "0.0.4"
