[package]
name = "mace_reforge"
version = "0.1.0"
edition = "2021"
publish = false

[dependencies]
serde = { version = "1", features = ["derive"] }
serde_json = "1"
log = "0.4"
env_logger = "0.11"
actix-web = { version = "4", default-features = false, features = ["macros"] }
actix-files = "0.6"
actix-ws = "0.3"
awc = { version = "3", default-features = false }
tokio = { version = "1", features = ["sync", "macros", "rt"] }
futures-util = "0.3"
leptos = { version = "0.8", features = ["csr"] }
web-sys = { version = "0.3", features = ["Window", "Location", "Storage", "Request", "RequestInit", "Response", "Headers", "WebSocket", "MessageEvent", "PointerEvent", "MouseEvent", "KeyboardEvent", "Event", "Element", "DomRect", "console"] }
wasm-bindgen = "0.2"
wasm-bindgen-futures = "0.4"
console_error_panic_hook = "0.1"
