[package]
name = "lua_type_engine"
version = "0.1.0"
edition = "2021"
publish = false

[dependencies]
clap = { version = "4", features = ["derive"] }
emmylua_parser = "*"
fern = "*"
log = "0.4"
lsp-types = "*"
rowan = "*"
tokio = { version = "1", features = ["rt-multi-thread", "macros", "sync"] }
tokio-util = "0.7"
