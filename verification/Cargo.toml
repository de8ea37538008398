[package]
name = "snake_game"
version = "0.1.0"
edition = "2021"
publish = false

[dependencies]
rand = "=0.7.3"
ncurses = "=5.101.0"
libc = "=0.2.191"
