[package]
name = "django_deployer"
version = "0.1.0"
edition = "2021"
publish = false

[dependencies]
colored = "*"
fs_extra = "*"
inquire = "*"
sudo = "*"
