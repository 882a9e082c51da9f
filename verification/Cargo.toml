[package]
name = "falcon_lib"
version = "0.1.0"
edition = "2021"
publish = false

[dependencies]
fn-dsa = "=0.4.0"
fn-dsa-vrfy = "=0.4.0"
rand_core = { version = "=0.6.4", features = ["getrandom"] }
clap = { version = "=4.6.7", features = ["derive"] }
dotenv = "=0.15.0"
sp1-zkvm = "4"

[dev-dependencies]
alloy-sol-types = "=0.8.26"
