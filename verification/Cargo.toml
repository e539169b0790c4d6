[package]
name = "iam_policy_lint"
version = "0.1.0"
edition = "2021"
publish = false

[dependencies]
hcl-rs = "*"
