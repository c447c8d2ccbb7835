[package]
name = "the_way"
version = "0.1.0"
edition = "2021"
publish = false

[dependencies]
clap = { version = "*", features = ["derive"] }
color-eyre = "*"
confy = "*"
directories-next = "*"
serde = { version = "*", features = ["derive"] }
