[package]
name = "base_alu_core"
version = "0.1.0"
edition = "2021"
publish = false

[dependencies]
openvm-circuit = { version = "=2.0.2", features = ["test-utils"] }
openvm-circuit-primitives = "=2.0.2"
openvm-rv32im-circuit = "=2.0.2"
openvm-rv32im-transpiler = "=2.0.2"
rand = "=0.9.5"
