[package]
name = "blue_music"
version = "0.1.0"
edition = "2021"
publish = false

[dependencies]
gdk-pixbuf = ">=0.5, <0.9"
gtk = ">=0.5, <0.9"
gtk-sys = ">=0.7, <0.10"
lazy_static = "1"
metaflac = "=0.2.8"
relm = "0.19"
relm-derive = "0.19"
rodio = "0.11"
walkdir = "=2.5.0"
