[package]
name = "dhcpv6_runner"
version = "0.1.0"
edition = "2021"
publish = false

[dependencies]
clap = "=4.6.7"
log = "=0.4.34"
mozim = "=0.2.7"
