[package]
name = "siostam"
version = "0.1.0"
edition = "2021"
publish = false

[dependencies]
actix = "=0.9.0"
actix-cors = "=0.2.0"
actix-files = "=0.2.2"
actix-rt = "=1.1.1"
actix-web = "=2.0.0"
actix-web-actors = "=2.0.0"
# Not used directly. actix-http 1.0, which actix-web 2.0 needs, takes `chrono::Duration`
# to be the duration type of `time` 0.1; later chrono releases made it a type of their
# own, and actix-http no longer compiles against them.
chrono = "=0.4.19"
clap = "=2.34.0"
dotenv = "=0.15.0"
env_logger = "=0.7.1"
git2 = "=0.13.25"
handlebars = "=3.5.5"
humantime = "=2.4.0"
log = "=0.4.34"
mime = "=0.3.17"
notify = "=4.0.18"
serde = "=1.0.229"
serde_derive = "=1.0.229"
serde_json = "=1.0.154"
toml = "=0.5.11"
walkdir = "=2.5.0"
