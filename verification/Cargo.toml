[package]
name = "toster"
version = "0.1.0"
edition = "2021"
publish = false

[dependencies]
crossbeam-queue = "*"
comfy-table = "*"
terminal_size = "*"
num_cpus = "*"
memfile = "*"
tempfile = "*"
wait-timeout = "*"
command-fds = "*"
directories = "*"
colored = "*"
once_cell = "*"
