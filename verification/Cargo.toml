[package]
name = "og_image"
version = "0.1.0"
edition = "2021"

[dependencies]
textwrap = "*"
resvg = "*"
tiny-skia = "*"
oxipng = { version = "*", default-features = false }
wasm-bindgen = "*"
js-sys = "*"

[dev-dependencies]
png = "*"
