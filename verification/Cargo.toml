[package]
name = "density_refine"
version = "0.1.0"
edition = "2021"
publish = false

[dependencies]
rustc_apfloat = "=0.2.3+llvm-462a31f5a5ab"
noise = "=0.9.0"
png_encode_mini = "=0.1.2"
