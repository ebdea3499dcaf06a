[package]
name = "prototyper"
version = "0.1.0"
edition = "2021"
publish = false

[dependencies]
spin = "*"
rustsbi = "*"
sbi-spec = "*"
riscv = "*"
uart16550 = "*"
uart_xilinx = "*"
embedded-io = "*"
