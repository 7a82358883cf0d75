[package]
name = "fractal_scenes"
version = "0.1.0"
edition = "2021"
publish = false

[dependencies]
wasm-bindgen = "0.2"
web-sys = { version = "0.3", features = [
    "CanvasRenderingContext2d",
    "CssStyleDeclaration",
    "Document",
    "Element",
    "Event",
    "EventTarget",
    "HtmlCanvasElement",
    "HtmlElement",
    "ImageData",
    "MouseEvent",
    "Node",
    "PointerEvent",
    "UiEvent",
    "WheelEvent",
    "Window",
] }
