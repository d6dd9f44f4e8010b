[package]
name = "sfu"
version = "0.1.0"
edition = "2021"
publish = false

[dependencies]
sdp = "*"
rtp = "*"
rtcp = "*"
webrtc-srtp = "*"
bytes = "*"
retty = "*"
rand = "*"
