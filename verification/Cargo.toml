[package]
name = "petabroad"
version = "0.1.0"
edition = "2021"
publish = false

[dependencies]
regex = "1"
serde = { version = "1", features = ["derive"] }
serde_json = "1"
anyhow = "1"
yew = "0.18"
wasm-bindgen = "0.2"
js-sys = "0.3"
web-sys = { version = "0.3", features = ["console", "Document", "Element", "HtmlElement", "HtmlDivElement", "MouseEvent", "Node", "SvgElement", "SvgGraphicsElement", "SvgPathElement", "SvgRect", "WheelEvent", "Window"] }
actix-web = "4"
mongodb = "2"
