[package]
name = "emu_gdb"
version = "0.1.0"
edition = "2021"
publish = false

[dependencies]
elf = "0.7"
gdbstub = "0.7"
gdbstub_arch = "0.3"
unicorn-engine = "2.1"
