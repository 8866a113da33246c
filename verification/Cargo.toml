[package]
name = "re_grpc_server"
version = "0.34.1"
edition = "2021"
publish = false

[dependencies]
anyhow = "1"
async-stream = "0.3"
# For `now_or_never`, which runs a `tokio` task at once. The arrow reader panics on some malformed
# chunks; a task turns that into an error, so that such a chunk does not stop the server.
futures = "=0.3.34"
parking_lot = "0.12"
re_byte_size = "=0.34.1"
re_error = "=0.34.1"
re_log = "=0.34.1"
re_log_channel = "=0.34.1"
re_log_encoding = { version = "=0.34.1", features = ["decoder", "encoder"] }
re_log_types = "=0.34.1"
re_protos = "=0.34.1"
re_quota_channel = { version = "=0.34.1", features = ["tokio"] }
re_sorbet = "=0.34.1"
re_uri = "=0.34.1"
tokio = { version = "1", features = ["macros", "net", "rt-multi-thread", "sync"] }
tokio-stream = "0.1"
tonic = "=0.14.9"
tonic-web = "0.14"
tower-http = { version = "0.6", features = ["cors"] }
wildmatch = "=2.7.0"

[dev-dependencies]
re_chunk = "=0.34.1"
re_sdk_types = "=0.34.1"
