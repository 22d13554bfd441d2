[package]
name = "terraform_zap"
version = "0.1.0"
edition = "2021"
publish = false

[dependencies]
toml = "=1.1.7"
subprocess = "=0.2.15"
which = "=8.0.6"
is_executable = "=1.0.6"
structopt = "=0.3.26"
yansi = "=1.0.1"
vlog = "=0.1.4"
