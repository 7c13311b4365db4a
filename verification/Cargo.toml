[package]
name = "notegraph"
version = "0.1.0"
edition = "2021"
publish = false

[dependencies]
typst = "=0.15.1"
typst-layout = "=0.15.1"
typst-svg = "=0.15.1"
typst-assets = { version = "=0.15.1", features = ["fonts"] }
chrono = "=0.4.45"
log = "=0.4.34"
console_log = "=1.1.0"
console_error_panic_hook = "=0.1.7"
web-sys = { version = "=0.3.106", features = ["Window", "Document", "Element", "HtmlElement", "Node"] }
