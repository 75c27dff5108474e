[package]
name = "mb2_game_audio"
version = "0.1.0"
edition = "2021"
publish = false

[dependencies]
nrf52833-hal = "*"
embedded-hal = "*"
