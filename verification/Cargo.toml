[package]
name = "ok_face_mixer_api"
version = "0.1.0"
edition = "2021"
publish = false

[dependencies]
image = "*"
actix-web = "*"
actix-files = "*"
env_logger = "*"
log = "*"
serde = "*"
serde_derive = "*"
