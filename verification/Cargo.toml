[package]
name = "portfolio"
version = "0.1.0"
edition = "2021"
publish = false

[dependencies]
comrak = { version = "*", default-features = false }
serde = { version = "*", features = ["derive"] }
yew = { version = "*", features = ["csr"] }
yew-router = "*"
web-sys = { version = "*", features = ["MouseEvent", "Window", "Document", "Element", "HtmlCollection", "MediaQueryList", "Location"] }
gloo = "*"
gloo-net = "*"
wasm-bindgen = "*"
wasm-bindgen-futures = "*"
console_error_panic_hook = "*"
wee_alloc = "*"
