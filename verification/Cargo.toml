[package]
name = "editing_area"
version = "0.1.0"
edition = "2021"
publish = false

[dependencies]
gtk4 = { version = "*", features = ["v4_10"] }
gdk4 = "*"
gsk4 = { version = "*", features = ["v4_10"] }
glib = "*"
graphene-rs = "*"
pango = "*"
