[package]
name = "edutalent"
version = "0.1.0"
edition = "2021"
publish = false

[dependencies]
chrono = "0.4"
serde_json = "1"
sha2 = "0.10"
uuid = { version = "1", features = ["v4"] }
dioxus = { version = "0.6", default-features = false, features = ["macro", "html", "hooks", "signals"] }
gloo-net = "0.6"
gloo-storage = "0.3"
gloo-timers = { version = "0.3", features = ["futures"] }
js-sys = "0.3"
wasm-bindgen = "0.2"
wasm-bindgen-futures = "0.4"
web-sys = { version = "0.3", features = ["Window", "Document", "Element", "HtmlElement", "HtmlFormElement", "HtmlInputElement", "FormData", "FileList", "File", "Blob", "Url", "Navigator", "Clipboard", "console"] }
