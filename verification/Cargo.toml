[package]
name = "spotify_manage"
version = "0.1.0"
edition = "2021"
publish = false

[dependencies]
zbus = "1"
zvariant = "2"
structopt = "0.3"
