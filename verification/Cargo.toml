[package]
name = "grbl_session"
version = "0.1.0"
edition = "2021"
publish = false

[dependencies]
grbli = "=0.1.0"
gtk4 = { version = "=0.7.3", features = ["v4_10"] }
roxmltree = "=0.19.0"
svg2gcode = "=0.1.6"
