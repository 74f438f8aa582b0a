[package]
name = "led_star"
version = "0.1.0"
edition = "2021"
publish = false
