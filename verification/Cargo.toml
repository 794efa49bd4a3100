[package]
name = "dommer"
version = "0.1.0"
edition = "2021"
publish = false

[dependencies]
bitflags = "*"
http = "*"
js-sys = "*"
wasm-bindgen = "*"
web-sys = { version = "*", features = ["AddEventListenerOptions", "EventListenerOptions", "Event", "EventTarget", "Node", "Element", "Document", "Window", "HtmlElement", "Text", "NodeList", "DomRect", "DomRectList", "Request", "ReferrerPolicy", "console"] }
