[package]
name = "alarm_cycle"
version = "0.1.0"
edition = "2021"
publish = false

[dependencies]
ansi_term = "0.12"
chrono = "0.4"
crossbeam-channel = "0.5"
parse_duration = "2"
rodio = "0.11"
shellexpand = "3"
structopt = "0.3"
