[package]
name = "gifski"
version = "0.4.0"
edition = "2021"
publish = false

[dependencies]
gif = "*"
gif-dispose = "*"
imagequant = { version = "*", default-features = false }
imgref = "*"
lodepng = "*"
pbr = "*"
rayon = "*"
resize = "*"
rgb = "*"
