[package]
name = "ad537x"
version = "0.1.0"
edition = "2021"
publish = false

[dependencies]
embedded-hal = "=0.2.7"
ftdi-embedded-hal = { version = "=0.24.0", features = ["libftd2xx"] }
libftd2xx = "=0.33.1"
ftdi-mpsse = "=0.1.2"
rppal = "=0.22.1"
once_cell = "=1.21.4"
chrono = "=0.4.45"
serde = { version = "=1.0.229", features = ["derive"] }
actix-web = "=4.15.0"
