[package]
name = "spot_models"
version = "0.1.0"
edition = "2021"
publish = false

[dependencies]
serde = { version = "1", features = ["derive"] }
glib = "*"
gio = "*"
gdk = "*"
gtk = "*"
gettext-rs = "*"
libhandy = "*"
gladis = "*"
