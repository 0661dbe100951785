[package]
name = "term_bridge"
version = "0.1.0"
edition = "2021"
publish = false

[dependencies]
crossterm = "=0.29.0"
futures = "=0.3.34"
wasm-bindgen = "=0.2.129"
web-sys = { version = "=0.3.106", features = ["Window", "Document", "Element", "EventTarget", "HtmlElement"] }
xterm-js-rs = { version = "=0.1.2", features = ["xterm-addon-fit", "xterm-addon-webgl"] }
