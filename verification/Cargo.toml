[package]
name = "leptos_material"
version = "0.1.0"
edition = "2021"
publish = false

[dependencies]
chrono = { version = "0.4", default-features = false, features = ["clock", "std"] }
leptos = { version = "0.6", default-features = false, features = ["csr"] }
leptos_meta = { version = "0.6", default-features = false, features = ["csr"] }
web-sys = { version = "0.3", features = ["HtmlElement", "MouseEvent", "ScrollIntoViewOptions", "ScrollLogicalPosition"] }
