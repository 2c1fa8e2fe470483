[package]
name = "external_compositor"
version = "0.1.0"
edition = "2021"
publish = false

[dependencies]
anyhow = "1"
itertools = "0.14"
log = "0.4"
objc2 = "0.6"
wgpu = { version = "29", default-features = false, features = ["std", "noop", "dx12", "metal", "wgsl"] }
windows = { version = "0.61", features = ["Win32_Foundation", "Win32_Graphics_Direct3D", "Win32_Graphics_Direct3D11", "Win32_Graphics_Direct3D11on12", "Win32_Graphics_Direct3D12", "Win32_Graphics_Dxgi", "Win32_Graphics_Dxgi_Common"] }
windows-core = "0.62"
