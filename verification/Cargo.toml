[package]
name = "penguin_plot"
version = "0.1.0"
edition = "2021"
publish = false

[dependencies]
rustc_apfloat = "=0.2.3"
libm = "=0.2.16"
bytemuck = "=1.25.2"
twofloat = "=0.8.4"
plotters = { version = "=0.3.7", default-features = false, features = ["bitmap_backend", "bitmap_encoder", "point_series"] }
