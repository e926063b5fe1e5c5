[package]
name = "train_tracker"
version = "0.1.0"
edition = "2021"
publish = false

[dependencies]
chrono = "0.4"
chrono-tz = "*"
clap = { version = "4", features = ["derive"] }
colored = "*"
plotters = { version = "0.3", default-features = false, features = ["bitmap_backend", "bitmap_encoder", "line_series"] }
regex = "1"
reqwest = { version = "0.12", default-features = false, features = ["json"] }
scraper = "*"
serde_json = "1"
tabular = "*"
tokio = { version = "1", features = ["macros", "rt-multi-thread", "time"] }
