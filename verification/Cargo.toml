[package]
name = "web_temperature_plots"
version = "0.1.0"
edition = "2021"
publish = false

[dependencies]
tokio-util = { version = "*", features = ["codec"] }
bytes = "*"
serde = { version = "1", features = ["derive"] }
serde_json = "1"
tokio = { version = "1", features = ["full"] }
futures = "0.3"
tokio-websockets = { version = "*", features = ["server", "sha1_smol"] }
thiserror = "*"
glob = "*"
anyhow = "1"
yew = { version = "*", features = ["csr"] }
web-sys = { version = "*", features = ["MouseEvent", "HtmlCanvasElement", "Window", "DomRect", "Element"] }
gloo-console = "*"
gloo-net = "*"
plotters = { version = "*", default-features = false, features = ["line_series"] }
plotters-canvas = "*"
