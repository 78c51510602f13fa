[package]
name = "artist_graph"
version = "0.1.0"
edition = "2021"
publish = false

[dependencies]
neo4rs = "*"
rspotify = { version = "*", default-features = false, features = ["client-reqwest", "reqwest-rustls-tls"] }
tokio = { version = "*", features = ["macros", "rt-multi-thread"] }
futures-util = "*"
dotenv = "*"
