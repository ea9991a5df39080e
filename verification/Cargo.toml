[package]
name = "load_image"
version = "0.1.0"
edition = "2021"
publish = false

[dependencies]
lodepng = "=3.12.2"
lcms2 = "=6.2.0"
jpeg-decoder = "=0.3.2"
rexif = "=0.7.6"
bytemuck = "=1.25.2"
rgb = "=0.8.53"
imgref = "=1.12.3"
libwebp = "=0.1.2"
aom-decode = "=0.2.14"
num_cpus = "=1.17.0"
quick-error = "=2.0.1"
mozjpeg = { version = "0.10", default-features = false }

[dev-dependencies]
jpeg-encoder = "=0.6.1"
