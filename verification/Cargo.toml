[package]
name = "oxgl"
version = "0.1.0"
edition = "2021"
publish = false

[dependencies]
glam = "*"
js-sys = "*"
wasm-bindgen = "*"
web-sys = { version = "*", features = [
    "Document",
    "Element",
    "HtmlCanvasElement",
    "WebGl2RenderingContext",
    "WebGlBuffer",
    "WebGlFramebuffer",
    "WebGlProgram",
    "WebGlRenderbuffer",
    "WebGlShader",
    "WebGlTexture",
    "WebGlUniformLocation",
    "Window",
] }
