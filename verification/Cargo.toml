[package]
name = "auto_bookmark"
version = "0.1.0"
edition = "2021"
publish = false

[dependencies]
pdfium-render = "*"
typst-as-lib = "*"
typst-pdf = "*"
tokio = { version = "*", features = ["rt-multi-thread", "macros", "fs"] }
uuid = { version = "*", features = ["v4", "serde"] }
serde = { version = "*", features = ["derive"] }
