[package]
name = "context_switch"
version = "0.1.0"
edition = "2021"
publish = false

[dependencies]
anyhow = "=1.0.104"
aristech-stt-client = "=3.5.0"
aristech-tts-client = "=2.2.0"
async-stream = "=0.3.6"
async-trait = "=0.1.92"
azure-speech = "=0.10.0"
base64 = "=0.22.1"
bytes = "=1.12.1"
deepgram = "=0.14.0"
fundsp = { version = "=0.23.0", default-features = false, features = ["std"] }
futures = "=0.3.34"
gemini-live = "=0.1.9"
google-cloud-auth = "=1.18.0"
google-cloud-token = "=0.1.2"
googleapis-tonic-google-cloud-speech-v2 = "=0.37.0"
hound = "=3.5.1"
mime_guess2 = "=2.3.1"
reqwest = { version = "=0.13.5", default-features = false, features = ["rustls", "stream"] }
rodio = { version = "=0.23.0", default-features = false, features = ["wav", "mp3"] }
serde = { version = "=1.0.229", features = ["derive"] }
serde_json = "=1.0.154"
tokio = { version = "=1.54.1", features = ["full"] }
tokio-tungstenite = { version = "=0.30.0", features = ["rustls-tls-webpki-roots"] }
tonic = { version = "=0.14.9", features = ["gzip", "tls-ring", "tls-webpki-roots"] }
tracing = "=0.1.44"
url = "=2.5.8"
uuid = { version = "=1.29.0", features = ["v4"] }
