[package]
name = "event_stream_recv"
version = "0.1.0"
edition = "2021"
publish = false

[dependencies]
aws-smithy-eventstream = "*"
aws-smithy-types = "*"
bytes = "*"
bytes-utils = "*"
hyper = "*"
