[package]
name = "tm4c123g_ipc"
version = "0.1.0"
edition = "2021"
publish = false

[dependencies]
hubpack = "0.1.2"
cortex-m = "0.7"
cortex-m-rt = "0.7"
cortex-m-semihosting = "0.5"
