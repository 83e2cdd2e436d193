[package]
name = "ch_ar_t"
version = "0.1.0"
edition = "2021"
publish = false

[dependencies]
zune-image = "*"
fast_image_resize = "*"
term_size = "*"
clap = { version = "*", features = ["derive"] }
reqwest = { version = "*", default-features = false, features = ["blocking"] }
anyhow = "*"
