[package]
name = "apple1"
version = "0.1.0"
edition = "2021"
publish = false

[dependencies]
mos6502 = "=0.10.1"
clap = "=4.6.7"
env_logger = "=0.11.11"
log = "=0.4.34"
ncurses = "=5.91.0"
