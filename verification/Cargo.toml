[package]
name = "mandelguessr"
version = "0.1.0"
edition = "2021"
publish = false

[dependencies]
anyhow = "1"
axum = "0.7"
bytemuck = { version = "1", features = ["derive"] }
cgmath = "0.18"
chrono = { version = "0.4", features = ["serde"] }
console_error_panic_hook = "0.1"
diesel = { version = "2", features = ["postgres", "r2d2"] }
http = "1"
leptos = { version = "0.6", features = ["ssr"] }
leptos_axum = "0.6"
leptos_meta = { version = "0.6", features = ["ssr"] }
leptos_router = { version = "0.6", features = ["ssr"] }
md5 = "0.7"
rand = "0.8"
serde = { version = "1", features = ["derive"] }
serde_json = "1"
tailwind_fuse = "0.3"
tokio = { version = "1", features = ["rt-multi-thread", "net"] }
tower = "0.4"
tower-http = { version = "0.5", features = ["fs", "catch-panic"] }
tracing = "0.1"
tracing-subscriber = "0.3"
tracing-wasm = "0.2"
wasm-bindgen = "0.2"
web-sys = "0.3"
web-time = "1"
wgpu = "0.20"
