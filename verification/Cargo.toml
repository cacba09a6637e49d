[package]
name = "eop"
version = "0.1.0"
edition = "2021"
publish = false

[dependencies]
json = "*"
serde = "*"
serde_derive = "*"
serde_json = "*"
serde_qs = "*"
rouille = "*"
htmlescape = "*"
url = "=1.7.2"
hyper = "=0.10.16"
hyper-native-tls = "*"
scoped_threadpool = "*"
telegram-bot = "*"
tokio-core = "*"
afterparty-ng = "*"
