[package]
name = "luaegui"
version = "0.1.0"
edition = "2021"
publish = false

[dependencies]
egui = "*"
tealr = { version = "*", features = ["mlua_lua54", "mlua_vendored"] }
