[package]
name = "magnidraw"
version = "0.1.0"
edition = "2021"
publish = false

[dependencies]
keydraw = "*"
wgpu = "*"
winit = "*"
winit_input_helper = "*"
gilrs = "*"
glyphon = "*"
image = { version = "*", default-features = false, features = ["png", "jpeg"] }
resvg = "*"
usvg = "*"
tiny-skia = "*"
bytemuck = "*"
dyn-clone = "*"
window_clipboard = "*"
