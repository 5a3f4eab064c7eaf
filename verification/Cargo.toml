[package]
name = "sprite_render"
version = "0.1.0"
edition = "2021"
publish = false

[dependencies]
bytemuck = "1"
wasm-bindgen = "0.2"
web-sys = { version = "0.3", features = ["console", "CssStyleDeclaration", "Document", "Element", "HtmlCanvasElement", "HtmlElement", "Node", "WebGl2RenderingContext", "WebGlBuffer", "WebGlProgram", "WebGlShader", "WebGlTexture", "WebGlVertexArrayObject", "Window"] }
winit = { version = "0.25", features = ["web-sys"] }
