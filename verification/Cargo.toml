[package]
name = "logic_canvas"
version = "0.1.0"
edition = "2021"
publish = false

[dependencies]
dyn-clonable = "0.9"
gloo = "0.11"
js-sys = "0.3"
log = "0.4"
stylist = { version = "0.13", features = ["yew_integration"] }
wasm-bindgen = "0.2"
wasm-logger = "0.2"
web-sys = { version = "0.3", features = ["Blob", "BlobPropertyBag", "CanvasRenderingContext2d", "Document", "Element", "Event", "EventTarget", "HtmlCanvasElement", "HtmlElement", "HtmlImageElement", "KeyboardEvent", "MouseEvent", "Url", "Window"] }
yew = { version = "0.21", features = ["csr"] }
yew_icons = { version = "0.8", features = ["lucide"] }
