[package]
name = "moonzoon"
version = "0.1.0"
edition = "2021"
publish = false

[dependencies]
web-sys = { version = "0.3", features = ["HtmlElement", "SvgElement"] }
dominator = "0.5"
anyhow = "1"
fehler = "1"
tar = "0.4"
tokio = { version = "1", features = ["fs", "rt", "macros"] }
