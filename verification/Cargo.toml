[package]
name = "blog_backend"
version = "0.1.0"
edition = "2021"
publish = false

[dependencies]
sha1 = "=0.11.0"
linecount = "=0.1.0"
chrono = "=0.4.45"
regex = "=1.13.1"
fancy-regex = "=0.20.0"
html2text = "=0.17.4"
ip2location = "=0.6.1"
rusqlite = { version = "=0.40.2", features = ["bundled"] }
r2d2 = "=0.8.10"
r2d2_sqlite = "=0.35.0"
log = "*"
env_logger = "*"
actix-web = "4"
actix-cors = "0.7"
handlebars = { version = "*", features = ["dir_source"] }
serde = { version = "1", features = ["derive"] }
serde_json = "1"
tokio = { version = "1", features = ["fs"] }
dotenv = "*"
getopts = "*"
