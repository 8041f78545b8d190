[package]
name = "squaregb"
version = "0.1.0"
edition = "2021"
publish = false

[dependencies]
arbitrary-int = "*"
wasm-bindgen = "*"
web-sys = { version = "*", features = ["Window", "Document", "Element", "HtmlElement"] }
