[package]
name = "basis_pipeline"
version = "0.1.0"
edition = "2021"
publish = false

[dependencies]
wasm-bindgen = "*"
wasm-bindgen-futures = "*"
js-sys = "*"
web-sys = { version = "*", features = ["Window", "Document", "Element", "HtmlCanvasElement", "Response", "console"] }
wgpu = "*"
console_error_panic_hook = "*"
