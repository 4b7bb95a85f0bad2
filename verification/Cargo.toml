[package]
name = "rollback_driver"
version = "0.1.0"
edition = "2021"
publish = false

[dependencies]
backroll = "=0.6.0"
backroll_transport_udp = "=0.6.0"
bevy_tasks = "=0.9.1"
bytemuck = "=1.25.2"
minifb = "=0.29.0"
