[package]
name = "gputools_replay"
version = "0.1.0"
edition = "2021"
publish = false

[dependencies]
plist = { version = "=1.10.3", features = ["enable_unstable_features_that_may_break_with_minor_version_bumps"] }
bytemuck = "=1.25.2"
thiserror = "=2.0.21"
gputrace-bundle = "=0.1.1"
objc2 = "=0.6.5"
objc2-foundation = "=0.3.2"
objc2-metal = "=0.3.2"
block2 = "=0.6.2"
