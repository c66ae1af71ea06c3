[package]
name = "devii"
version = "0.1.0"
edition = "2021"
publish = false

[dependencies]
blockchain_types = "*"
convert_case = "*"
dotenv = "*"
easy-error = "*"
named_type = "*"
named_type_derive = "*"
reqwest = { version = "0.11", features = ["json"] }
serde = { version = "1", features = ["derive"] }
serde_json = "1"
