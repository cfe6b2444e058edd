[package]
name = "delete_function"
version = "0.1.0"
edition = "2021"
publish = false

[dependencies]
serde = { version = "*", features = ["derive"] }
serde_json = "*"
serde_dynamo = { version = "*", features = ["aws-sdk-dynamodb+1"] }
aws-sdk-dynamodb = "*"
egnitely_client = "*"
