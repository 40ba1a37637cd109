[package]
name = "cerke_online_backend"
version = "0.1.0"
edition = "2021"
publish = false

[dependencies]
cetkaik_core = "=0.5.6"
cetkaik_full_state_transition = "=0.8.0"
cetkaik_yhuap_move_candidates = "=0.7.5"
rand = "=0.8.8"
uuid = { version = "=1.27.0", features = ["v4"] }
serde = { version = "1", features = ["derive"] }
serde_json = "1"
serde_repr = "0.1"
actix-web = "4"
actix-cors = "0.6"
actix-web-httpauth = "0.8"
