[package]
name = "rebirth"
version = "0.1.0"
edition = "2021"
publish = false

[dependencies]
serde = { version = "1", features = ["derive"] }
serde_json = "1"
gloo-net = { version = "0.6", default-features = false, features = ["http", "json"] }
wasm-bindgen = "0.2"
web-sys = { version = "0.3", features = ["Window", "Storage", "Location", "History", "Document", "Element", "HtmlElement", "Navigator", "Clipboard", "Crypto", "HtmlHeadElement", "NodeList", "Node"] }
