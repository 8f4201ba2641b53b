[package]
name = "dewey_lib"
version = "0.1.0"
edition = "2021"
publish = false

[dependencies]
aes-gcm = "0.10"
base64 = "0.22"
rand = "0.8"
serde_json = "1"
keyring = "3"
directories = "5"
tracing = "0.1"
