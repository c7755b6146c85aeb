[package]
name = "mp_core"
version = "0.1.0"
edition = "2021"
publish = false

[dependencies]
anyhow = "=1.0.104"
axum = { version = "=0.7.9", features = ["ws"] }
axum-extra = { version = "=0.9.6", features = ["typed-header"] }
chrono = { version = "=0.4.45", features = ["serde"] }
console_error_panic_hook = "0.1"
dotenvy = "=0.15.7"
futures-util = "=0.3.34"
glam = "=0.34.1"
js-sys = "0.3"
leptos = { version = "0.6", features = ["csr"] }
serde = { version = "=1.0.229", features = ["derive"] }
serde_json = "=1.0.154"
sqlx = { version = "0.8", default-features = false, features = ["runtime-tokio", "postgres", "uuid", "chrono", "macros", "migrate"] }
tokio = { version = "=1.54.1", features = ["macros", "rt-multi-thread", "net", "sync", "time"] }
tower = "=0.5.3"
tower-http = { version = "=0.5.2", features = ["cors", "trace"] }
tracing = "=0.1.44"
tracing-subscriber = "=0.3.23"
uuid = { version = "=1.29.0", features = ["v4", "serde"] }
wasm-bindgen = "0.2"
web-sys = { version = "0.3", features = ["console", "Window", "Document", "Element", "HtmlElement", "Node", "Event", "EventTarget", "WebSocket", "MessageEvent", "ErrorEvent", "CloseEvent"] }
