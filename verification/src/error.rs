//! Why a shared context could not be had.
//!
//! An error is reported as a chain of messages: its own first, then what it was
//! caused by, each cause behind what it caused. Where a call outside the library
//! failed, `causes` holds the messages of that failure in the same order.

use crate::text::{append_strings, one_string, pointer_chars, pointer_text, texts};
use vstd::prelude::*;
use vstd::string::*;

verus! {

/// What went wrong while a shared context was made.
#[derive(Debug)]
pub enum ContextError {
    /// A context cannot be made from a D3D12 device yet.
    D3d12DeviceUnsupported,
    /// The Metal device to share is the null pointer.
    NullMetalDevice,
    /// The `wgpu` instance does not use Metal.
    InstanceNotMetal,
    /// No adapter opened the Metal device to share.
    NoMetalAdapter { metal_device: usize },
    /// The matching adapter would not give a `wgpu` device.
    MetalDeviceCreation { causes: Vec<String> },
    /// The `wgpu` device does not use Metal.
    DeviceNotMetal,
    /// The `wgpu` device uses another Metal device than the one to share.
    MetalDeviceMismatch { wgpu_device: usize, metal_device: usize },
    /// There is no DX12 adapter to be had.
    AdapterRequest { error: String },
    /// The adapter uses another graphics interface than DX12.
    AdapterNotDx12 { name: String, backend: wgpu::Backend },
    /// The DX12 adapter would not give a device.
    DeviceRequest { causes: Vec<String> },
    /// The `wgpu` device does not use DX12.
    DeviceNotDx12,
    /// The `wgpu` device uses another D3D12 device than expected.
    Dx12DeviceMismatch { wgpu_device: usize, expected: usize },
    /// The `wgpu` device uses another D3D12 command queue than expected.
    Dx12QueueMismatch { wgpu_queue: usize, expected: usize },
    /// A texture to sample is not a DX12 texture.
    TextureNotDx12,
}

/// The name of a graphics interface, as messages spell it.
pub open spec fn backend_chars(backend: wgpu::Backend) -> Seq<char> {
    match backend {
        wgpu::Backend::Noop => "Noop"@,
        wgpu::Backend::Vulkan => "Vulkan"@,
        wgpu::Backend::Metal => "Metal"@,
        wgpu::Backend::Dx12 => "Dx12"@,
        wgpu::Backend::Gl => "Gl"@,
        wgpu::Backend::BrowserWebGpu => "BrowserWebGpu"@,
    }
}

/// The name of a graphics interface.
pub fn backend_name(backend: wgpu::Backend) -> (name: &'static str)
    ensures
        name@ == backend_chars(backend),
{
    match backend {
        wgpu::Backend::Noop => "Noop",
        wgpu::Backend::Vulkan => "Vulkan",
        wgpu::Backend::Metal => "Metal",
        wgpu::Backend::Dx12 => "Dx12",
        wgpu::Backend::Gl => "Gl",
        wgpu::Backend::BrowserWebGpu => "BrowserWebGpu",
    }
}

impl ContextError {
    /// The words of the error itself, without its causes.
    pub open spec fn message_chars(self) -> Seq<char> {
        match self {
            ContextError::D3d12DeviceUnsupported =>
                "creating an external wgpu context from a D3D12 device is not implemented yet"@,
            ContextError::NullMetalDevice =>
                "cannot create external wgpu context from a null Metal device"@,
            ContextError::InstanceNotMetal =>
                "external compositor wgpu instance is not backed by Metal"@,
            ContextError::NoMetalAdapter { metal_device } =>
                "failed to find a wgpu Metal adapter backed by GPUI Metal device ("@
                    + pointer_chars(metal_device as nat) + ")"@,
            ContextError::MetalDeviceCreation { causes: _ } =>
                "failed to create wgpu device from GPUI Metal device"@,
            ContextError::DeviceNotMetal =>
                "external compositor wgpu device is not backed by Metal"@,
            ContextError::MetalDeviceMismatch { wgpu_device, metal_device } =>
                "external compositor wgpu Metal device ("@ + pointer_chars(wgpu_device as nat)
                    + ") does not match GPUI Metal device ("@ + pointer_chars(metal_device as nat)
                    + ")"@,
            ContextError::AdapterRequest { error } =>
                "failed to request DX12 wgpu adapter: "@ + error@,
            ContextError::AdapterNotDx12 { name, backend } =>
                "external compositor wgpu adapter is not DX12: "@ + name@ + " ("@
                    + backend_chars(backend) + ")"@,
            ContextError::DeviceRequest { causes: _ } =>
                "failed to create DX12 wgpu device for external compositing"@,
            ContextError::DeviceNotDx12 =>
                "external compositor wgpu device is not backed by DX12"@,
            ContextError::Dx12DeviceMismatch { wgpu_device, expected } =>
                "external compositor DX12 device identity mismatch: wgpu="@
                    + pointer_chars(wgpu_device as nat) + ", expected="@
                    + pointer_chars(expected as nat),
            ContextError::Dx12QueueMismatch { wgpu_queue, expected } =>
                "external compositor DX12 queue identity mismatch: wgpu="@
                    + pointer_chars(wgpu_queue as nat) + ", expected="@
                    + pointer_chars(expected as nat),
            ContextError::TextureNotDx12 =>
                "external compositor returned a non-DX12 wgpu texture on Windows"@,
        }
    }

    /// What the error was caused by.
    pub open spec fn cause_chars(self) -> Seq<Seq<char>> {
        match self {
            ContextError::MetalDeviceCreation { causes } => texts(causes@),
            ContextError::DeviceRequest { causes } => texts(causes@),
            _ => Seq::empty(),
        }
    }

    /// The whole report: the error itself, then its causes.
    pub open spec fn chain_chars(self) -> Seq<Seq<char>> {
        seq![self.message_chars()] + self.cause_chars()
    }

    /// The words of the error itself, without its causes.
    pub fn message(&self) -> (message: String)
        ensures
            message@ == self.message_chars(),
    {
        match self {
            ContextError::D3d12DeviceUnsupported => {
                "creating an external wgpu context from a D3D12 device is not implemented yet".to_owned()
            },
            ContextError::NullMetalDevice => {
                "cannot create external wgpu context from a null Metal device".to_owned()
            },
            ContextError::InstanceNotMetal => {
                "external compositor wgpu instance is not backed by Metal".to_owned()
            },
            ContextError::NoMetalAdapter { metal_device } => {
                "failed to find a wgpu Metal adapter backed by GPUI Metal device (".to_owned().concat(
                    pointer_text(*metal_device).as_str(),
                ).concat(")")
            },
            ContextError::MetalDeviceCreation { causes: _ } => {
                "failed to create wgpu device from GPUI Metal device".to_owned()
            },
            ContextError::DeviceNotMetal => {
                "external compositor wgpu device is not backed by Metal".to_owned()
            },
            ContextError::MetalDeviceMismatch { wgpu_device, metal_device } => {
                "external compositor wgpu Metal device (".to_owned().concat(
                    pointer_text(*wgpu_device).as_str(),
                ).concat(") does not match GPUI Metal device (").concat(
                    pointer_text(*metal_device).as_str(),
                ).concat(")")
            },
            ContextError::AdapterRequest { error } => {
                "failed to request DX12 wgpu adapter: ".to_owned().concat(error.as_str())
            },
            ContextError::AdapterNotDx12 { name, backend } => {
                "external compositor wgpu adapter is not DX12: ".to_owned().concat(
                    name.as_str(),
                ).concat(" (").concat(backend_name(*backend)).concat(")")
            },
            ContextError::DeviceRequest { causes: _ } => {
                "failed to create DX12 wgpu device for external compositing".to_owned()
            },
            ContextError::DeviceNotDx12 => {
                "external compositor wgpu device is not backed by DX12".to_owned()
            },
            ContextError::Dx12DeviceMismatch { wgpu_device, expected } => {
                "external compositor DX12 device identity mismatch: wgpu=".to_owned().concat(
                    pointer_text(*wgpu_device).as_str(),
                ).concat(", expected=").concat(pointer_text(*expected).as_str())
            },
            ContextError::Dx12QueueMismatch { wgpu_queue, expected } => {
                "external compositor DX12 queue identity mismatch: wgpu=".to_owned().concat(
                    pointer_text(*wgpu_queue).as_str(),
                ).concat(", expected=").concat(pointer_text(*expected).as_str())
            },
            ContextError::TextureNotDx12 => {
                "external compositor returned a non-DX12 wgpu texture on Windows".to_owned()
            },
        }
    }

    /// The whole report: the error itself, then its causes.
    pub fn chain(&self) -> (chain: Vec<String>)
        ensures
            texts(chain@) == self.chain_chars(),
    {
        let mut chain: Vec<String> = one_string(self.message());
        match self {
            ContextError::MetalDeviceCreation { causes } => {
                append_strings(&mut chain, causes);
            },
            ContextError::DeviceRequest { causes } => {
                append_strings(&mut chain, causes);
            },
            _ => {},
        }
        assert(texts(chain@) =~= self.chain_chars());
        chain
    }
}

/// A message that speaks of addresses spells each of them, whichever they are, and
/// the one that was found comes before the one that was expected.
pub proof fn messages_spell_the_addresses(error: ContextError, message: String)
    requires
        call_ensures(ContextError::message, (&error,), message),
    ensures
        error matches ContextError::NoMetalAdapter { metal_device } ==> message@
            == "failed to find a wgpu Metal adapter backed by GPUI Metal device ("@
            + pointer_chars(metal_device as nat) + ")"@,
        error matches ContextError::MetalDeviceMismatch { wgpu_device, metal_device } ==> message@
            == "external compositor wgpu Metal device ("@ + pointer_chars(wgpu_device as nat)
            + ") does not match GPUI Metal device ("@ + pointer_chars(metal_device as nat) + ")"@,
        error matches ContextError::Dx12DeviceMismatch { wgpu_device, expected } ==> message@
            == "external compositor DX12 device identity mismatch: wgpu="@ + pointer_chars(
            wgpu_device as nat,
        ) + ", expected="@ + pointer_chars(expected as nat),
        error matches ContextError::Dx12QueueMismatch { wgpu_queue, expected } ==> message@
            == "external compositor DX12 queue identity mismatch: wgpu="@ + pointer_chars(
            wgpu_queue as nat,
        ) + ", expected="@ + pointer_chars(expected as nat),
{
}

/// A message that passes on what an adapter or its driver said holds all of it,
/// word for word, and in the same place whatever it is.
pub proof fn messages_hold_what_was_said(error: ContextError, message: String)
    requires
        call_ensures(ContextError::message, (&error,), message),
    ensures
        error matches ContextError::AdapterRequest { error: said } ==> message@
            == "failed to request DX12 wgpu adapter: "@ + said@,
        error matches ContextError::AdapterNotDx12 { name, backend } ==> message@
            == "external compositor wgpu adapter is not DX12: "@ + name@ + " ("@ + (
        match backend {
            wgpu::Backend::Noop => "Noop"@,
            wgpu::Backend::Vulkan => "Vulkan"@,
            wgpu::Backend::Metal => "Metal"@,
            wgpu::Backend::Dx12 => "Dx12"@,
            wgpu::Backend::Gl => "Gl"@,
            wgpu::Backend::BrowserWebGpu => "BrowserWebGpu"@,
        }) + ")"@,
{
}

/// Two errors of one kind that carry causes have the same message, whatever the
/// causes are.
pub proof fn causes_do_not_change_the_message(
    causes: Vec<String>,
    others: Vec<String>,
    message: String,
    other: String,
)
    ensures
        call_ensures(
            ContextError::message,
            (&(ContextError::MetalDeviceCreation { causes }),),
            message,
        ) && call_ensures(
            ContextError::message,
            (&(ContextError::MetalDeviceCreation { causes: others }),),
            other,
        ) ==> message@ == other@,
        call_ensures(
            ContextError::message,
            (&(ContextError::DeviceRequest { causes }),),
            message,
        ) && call_ensures(
            ContextError::message,
            (&(ContextError::DeviceRequest { causes: others }),),
            other,
        ) ==> message@ == other@,
{
}

/// The report of an error begins with its message. All of its causes follow, in
/// order, and nothing else.
pub proof fn the_report_is_the_message_and_the_causes(
    error: ContextError,
    message: String,
    chain: Vec<String>,
)
    requires
        call_ensures(ContextError::message, (&error,), message),
        call_ensures(ContextError::chain, (&error,), chain),
    ensures
        chain@.len() > 0,
        chain@[0]@ == message@,
        match error {
            ContextError::MetalDeviceCreation { causes } => {
                &&& chain@.len() == causes@.len() + 1
                &&& forall|i: int|
                    0 <= i < causes@.len() ==> (#[trigger] causes@[i])@ == chain@[i + 1]@
            },
            ContextError::DeviceRequest { causes } => {
                &&& chain@.len() == causes@.len() + 1
                &&& forall|i: int|
                    0 <= i < causes@.len() ==> (#[trigger] causes@[i])@ == chain@[i + 1]@
            },
            _ => chain@.len() == 1,
        },
{
    let report = texts(chain@);
    assert(report.len() == chain@.len());
    assert(report[0] == chain@[0]@);
    match error {
        ContextError::MetalDeviceCreation { causes } => {
            follows(chain@, message@, causes@);
        },
        ContextError::DeviceRequest { causes } => {
            follows(chain@, message@, causes@);
        },
        _ => {},
    }
}

proof fn follows(chain: Seq<String>, message: Seq<char>, causes: Seq<String>)
    requires
        texts(chain) == seq![message] + texts(causes),
    ensures
        chain.len() == causes.len() + 1,
        forall|i: int| 0 <= i < causes.len() ==> (#[trigger] causes[i])@ == chain[i + 1]@,
{
    assert(texts(chain).len() == chain.len());
    assert forall|i: int| 0 <= i < causes.len() implies (#[trigger] causes[i])@ == chain[i
        + 1]@ by {
        assert(texts(chain)[i + 1] == texts(causes)[i]);
    }
}

} // verus!
