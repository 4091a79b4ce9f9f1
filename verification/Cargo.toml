[package]
name = "py-perf"
version = "0.1.0"
edition = "2021"
publish = false

[dependencies]
anyhow = "*"
chrono = "*"
clap = { version = "*", features = ["derive"] }
crossbeam = "*"
ctrlc = "*"
errno = "*"
humantime = "*"
libbpf-rs = "*"
libc = "*"
memoffset = "*"
num_cpus = "*"
perf-event-open-sys = "*"
pprof = { version = "*", features = ["flamegraph", "protobuf-codec"] }
py-spy = "*"
remoteprocess = "*"
