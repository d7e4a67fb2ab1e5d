[package]
name = "kratos_forms"
version = "0.1.0"
edition = "2021"
publish = false

[dependencies]
chrono = "0.4"
serde_json = "1"
dioxus = { version = "0.6", default-features = false, features = ["macro", "html", "signals", "hooks", "launch", "router", "logger", "web"] }
ory-kratos-client = "*"
gloo-timers = "0.3"
web-sys = { version = "0.3", features = ["Window", "Document", "HtmlDocument"] }
