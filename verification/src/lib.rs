//! Setting up the graphics devices that an external compositor shares with its
//! host renderer.
//!
//! A host window samples textures that somebody else renders with `wgpu`. That
//! only works when both sides talk to the same device, so most of this library
//! is about finding that device, checking its identity and reporting clearly
//! when it is not the right one. Calls that touch a driver stay outside: the
//! library says which call is due, is told how it went, and decides what
//! follows.
//!
//! * [`external_context`]: the shared device and queue, with its device-lost flag.
//! * [`graphics`]: the limits and the descriptor that a device is requested with.
//! * [`metal`]: from a Metal device to a context backed by it.
//! * [`dx12`]: a DX12 context with validated device and queue handles.
//! * [`directx_devices`]: the D3D11-on-12 devices of the Windows renderer.
//! * [`recovery`]: retrying after a lost device.
//! * [`adapter_name`]: the printable name of a DXGI adapter.
//! * [`error`], [`directx_error`], [`text`]: errors and the words they are
//!   reported in.

pub mod adapter_name;
pub mod directx_devices;
pub mod directx_error;
pub mod dx12;
pub mod error;
pub mod external_context;
pub mod graphics;
pub mod metal;
pub mod recovery;
pub mod text;

pub use dx12::{dx12_texture_resource_raw, Dx12ExternalWgpuContext};
pub use error::ContextError;
pub use external_context::{ExternalWgpuContext, WgpuContext};
