[package]
name = "hecs-component-provider"
version = "0.1.0"
edition = "2021"
publish = false

[dependencies]
gensym = "*"
proc-macro2 = "1"
quote = "1"
syn = { version = "2", features = ["full"] }

[dev-dependencies]
hecs = "*"
