[package]
name = "tracing_slf4j"
version = "0.1.0"
edition = "2021"
publish = false

[dependencies]
jni = "=0.21.1"
tracing = { version = "=0.1.44", default-features = false, features = ["std"] }

[dev-dependencies]
jni = { version = "=0.21.1", features = ["invocation"] }
