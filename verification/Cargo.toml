[package]
name = "ejkore"
version = "0.1.0"
edition = "2021"
publish = false

[dependencies]
wasm-bindgen = "0.2"
wasm-bindgen-futures = "0.4"
js-sys = "0.3"
matchbox_socket = "*"

[dependencies.web-sys]
version = "0.3"
features = [
    "CanvasRenderingContext2d",
    "CssStyleDeclaration",
    "Document",
    "Element",
    "Event",
    "EventTarget",
    "Gamepad",
    "GamepadButton",
    "GamepadEvent",
    "HtmlCanvasElement",
    "HtmlElement",
    "KeyboardEvent",
    "Location",
    "Navigator",
    "Performance",
    "Storage",
    "Touch",
    "TouchEvent",
    "TouchList",
    "Window",
]
