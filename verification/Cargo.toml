[package]
name = "arena_lang"
version = "0.1.0"
edition = "2021"

[dependencies]
clap = { version = "=3.2.25", features = ["derive"] }
lalrpop-util = "=0.19.12"
llvm-sys = { version = "=140.1.3", features = ["prefer-dynamic"] }
