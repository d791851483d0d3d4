[package]
name = "libbrainview"
version = "0.1.0"
edition = "2021"
publish = false

[dependencies]
colorous = "=1.0.16"
neuroformats = "=0.2.6"
quick-error = "=2.0.1"
structopt = "=0.3.26"
three-d = "=0.6.2"
