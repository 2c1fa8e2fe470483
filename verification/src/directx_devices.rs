//! The D3D11-on-12 devices of the Windows renderer.
//!
//! The renderer draws with D3D11, on a D3D11-on-12 device made from the D3D12
//! device and command queue behind the shared context. Each stage of the setup
//! is a type of its own: it says what the next call is to be made with, takes the
//! answer, and gives the next stage or the error that ends the setup.
//!
//! Where a call failed, its answer holds the messages of the failure, outermost
//! first. Native objects are known by their address.
//!
//! A stage opens no invariant, so none of them raises a device-lost flag.

use crate::directx_error::{ComError, D3d11On12Error, DirectXError};
use crate::dx12::{
    dx12_context_needs_dx12_throughout, dx12_outcome, AdapterFacts, Dx12ExternalWgpuContext,
    Dx12Handles,
};
use crate::error::ContextError;
use crate::external_context::ExternalWgpuContext;
use vstd::prelude::*;

verus! {

/// Has the DXGI factory report to the debug layer.
pub const DXGI_CREATE_FACTORY_DEBUG: u32 = 0x1;

/// Has a D3D11 device report to the debug layer.
pub const D3D11_CREATE_DEVICE_DEBUG: u32 = 0x2;

/// Has a D3D11 device support BGRA surfaces.
pub const D3D11_CREATE_DEVICE_BGRA_SUPPORT: u32 = 0x20;

/// Direct3D 11.1.
pub const D3D_FEATURE_LEVEL_11_1: i32 = 0xb100;

/// Direct3D 11.0.
pub const D3D_FEATURE_LEVEL_11_0: i32 = 0xb000;

/// Direct3D 10.1.
pub const D3D_FEATURE_LEVEL_10_1: i32 = 0xa100;

/// What the D3D12 device is borrowed for, as errors put it.
pub const BORROWING_DEVICE: &'static str = "Borrowing external wgpu D3D12 device";

/// What the D3D12 command queue is borrowed for, as errors put it.
pub const BORROWING_QUEUE: &'static str = "Borrowing external wgpu D3D12 command queue";

/// Whether the debug layer is there to be used: only in debug builds, and only
/// where its interface was found.
pub fn check_debug_layer_available(debug_build: bool, debug_interface_found: bool) -> (available:
    bool)
    ensures
        available == (debug_build && debug_interface_found),
    opens_invariants none
{
    debug_build && debug_interface_found
}

/// The flags of the DXGI factory.
pub open spec fn factory_flags_for(debug_layer_available: bool) -> u32 {
    if debug_layer_available {
        DXGI_CREATE_FACTORY_DEBUG
    } else {
        0
    }
}

/// The flags of the D3D11 device.
pub open spec fn device_flags_for(debug_layer_available: bool) -> u32 {
    if debug_layer_available {
        D3D11_CREATE_DEVICE_BGRA_SUPPORT | D3D11_CREATE_DEVICE_DEBUG
    } else {
        D3D11_CREATE_DEVICE_BGRA_SUPPORT
    }
}

/// The feature levels that will do, best first.
pub open spec fn requested_levels() -> Seq<i32> {
    seq![D3D_FEATURE_LEVEL_11_1, D3D_FEATURE_LEVEL_11_0, D3D_FEATURE_LEVEL_10_1]
}

/// The outcome of looking at an address before it is borrowed for `context`.
pub open spec fn com_pointer_check(raw: usize, context: &'static str) -> Result<usize, ComError> {
    if raw == 0 {
        Err(ComError::NullPointer { context })
    } else {
        Ok(raw)
    }
}

/// The outcome of borrowing an interface for `context`.
pub open spec fn com_interface_check(borrowed: bool, context: &'static str) -> Result<
    (),
    ComError,
> {
    if borrowed {
        Ok(())
    } else {
        Err(ComError::NoInterface { context })
    }
}

/// The outcome of the call that makes the device, and of looking for the device.
pub open spec fn creation_check(call: Result<(), Vec<String>>, device_given: bool) -> Result<
    (),
    D3d11On12Error,
> {
    match call {
        Err(causes) => Err(D3d11On12Error::Call { causes }),
        Ok(()) => if device_given {
            Ok(())
        } else {
            Err(D3d11On12Error::NoDevice)
        },
    }
}

/// The outcome of asking the device for structured buffers. The answer is a
/// Windows truth value: anything but zero is a yes.
pub open spec fn feature_check(query: Result<i32, Vec<String>>) -> Result<(), D3d11On12Error> {
    match query {
        Err(causes) => Err(D3d11On12Error::FeatureQuery { causes }),
        Ok(supported) => if supported != 0 {
            Ok(())
        } else {
            Err(D3d11On12Error::StructuredBuffersUnsupported)
        },
    }
}

/// Checks an address before a COM object is borrowed from it.
pub fn check_com_pointer(raw: usize, context: &'static str) -> (res: Result<usize, ComError>)
    ensures
        res == com_pointer_check(raw, context),
    opens_invariants none
{
    if raw == 0 {
        return Err(ComError::NullPointer { context });
    }
    Ok(raw)
}

/// Checks that the interface could be borrowed.
pub fn check_com_interface(borrowed: bool, context: &'static str) -> (res: Result<(), ComError>)
    ensures
        res == com_interface_check(borrowed, context),
    opens_invariants none
{
    if borrowed {
        Ok(())
    } else {
        Err(ComError::NoInterface { context })
    }
}

/// Checks that the device supports structured buffers, which the shaders need.
pub fn validate_d3d11_device_features(query: Result<i32, Vec<String>>) -> (res: Result<
    (),
    D3d11On12Error,
>)
    ensures
        res == feature_check(query),
    opens_invariants none
{
    match query {
        Err(causes) => Err(D3d11On12Error::FeatureQuery { causes }),
        Ok(supported) => {
            if supported != 0 {
                Ok(())
            } else {
                Err(D3d11On12Error::StructuredBuffersUnsupported)
            }
        },
    }
}

/// A feature level that the device may be made with.
#[derive(Clone, Copy, Debug, PartialEq, Eq, Structural)]
pub enum FeatureLevel {
    Direct3D11p1,
    Direct3D11p0,
    Direct3D10p1,
}

impl FeatureLevel {
    /// The number that Direct3D has for the level.
    pub open spec fn number(self) -> i32 {
        match self {
            FeatureLevel::Direct3D11p1 => D3D_FEATURE_LEVEL_11_1,
            FeatureLevel::Direct3D11p0 => D3D_FEATURE_LEVEL_11_0,
            FeatureLevel::Direct3D10p1 => D3D_FEATURE_LEVEL_10_1,
        }
    }

    /// The level that Direct3D has this number for, if it is one that is offered.
    pub fn from_number(number: i32) -> (level: Option<Self>)
        ensures
            level is Some <==> requested_levels().contains(number),
            level matches Some(level) ==> level.number() == number,
    {
        proof {
            let levels = requested_levels();
            assert(levels[0] == D3D_FEATURE_LEVEL_11_1);
            assert(levels[1] == D3D_FEATURE_LEVEL_11_0);
            assert(levels[2] == D3D_FEATURE_LEVEL_10_1);
        }
        if number == D3D_FEATURE_LEVEL_11_1 {
            Some(FeatureLevel::Direct3D11p1)
        } else if number == D3D_FEATURE_LEVEL_11_0 {
            Some(FeatureLevel::Direct3D11p0)
        } else if number == D3D_FEATURE_LEVEL_10_1 {
            Some(FeatureLevel::Direct3D10p1)
        } else {
            None
        }
    }

    /// What is reported of a device made with the level.
    pub open spec fn report_chars(self) -> Seq<char> {
        match self {
            FeatureLevel::Direct3D11p1 =>
                "Created D3D11On12 device with Direct3D 11.1 feature level."@,
            FeatureLevel::Direct3D11p0 =>
                "Created D3D11On12 device with Direct3D 11.0 feature level."@,
            FeatureLevel::Direct3D10p1 =>
                "Created D3D11On12 device with Direct3D 10.1 feature level."@,
        }
    }

    /// What to report of a device made with the level.
    pub fn report(self) -> (report: &'static str)
        ensures
            report@ == self.report_chars(),
    {
        match self {
            FeatureLevel::Direct3D11p1 =>
                "Created D3D11On12 device with Direct3D 11.1 feature level.",
            FeatureLevel::Direct3D11p0 =>
                "Created D3D11On12 device with Direct3D 11.0 feature level.",
            FeatureLevel::Direct3D10p1 =>
                "Created D3D11On12 device with Direct3D 10.1 feature level.",
        }
    }
}

/// Before anything is made.
#[derive(Clone, Copy, Debug, PartialEq, Eq, Structural)]
pub struct DirectXSetup {
    pub debug_layer_available: bool,
}

/// There is a DXGI factory; the DX12 context is next.
#[derive(Clone, Copy, Debug, PartialEq, Eq, Structural)]
pub struct FactoryCreated {
    pub debug_layer_available: bool,
}

/// There is a DX12 context whose device address is not null; the device is to be
/// borrowed from it next.
pub struct DeviceBorrow {
    pub debug_layer_available: bool,
    pub dx12: Dx12ExternalWgpuContext,
}

/// The device is borrowed, and the queue address is not null; the queue is to be
/// borrowed from it next.
pub struct QueueBorrow {
    pub debug_layer_available: bool,
    pub dx12: Dx12ExternalWgpuContext,
}

/// Device and queue are borrowed; the adapter of the device is next.
pub struct AdapterLookup {
    pub debug_layer_available: bool,
    pub dx12: Dx12ExternalWgpuContext,
}

/// The adapter is found; the queue is to be cast for the D3D11-on-12 device.
pub struct QueueCast {
    pub debug_layer_available: bool,
    pub dx12: Dx12ExternalWgpuContext,
}

/// The D3D11-on-12 device is to be made next.
pub struct DeviceCreation {
    pub debug_layer_available: bool,
    pub dx12: Dx12ExternalWgpuContext,
}

/// There is a D3D11 device; what it supports is to be asked next.
pub struct FeatureCheck {
    pub dx12: Dx12ExternalWgpuContext,
}

/// The device will do; it is to be cast to its D3D11-on-12 interface next.
pub struct DeviceCast {
    pub dx12: Dx12ExternalWgpuContext,
}

/// Everything is made.
pub struct DevicesCreated {
    pub dx12: Dx12ExternalWgpuContext,
}

/// The devices of the renderer, next to the native objects that only the caller
/// holds: the shared context, the addresses of the D3D12 device and queue that
/// the D3D11-on-12 device was made from, and the feature level it was made with.
pub struct DirectXDevices {
    pub external_wgpu_context: ExternalWgpuContext,
    pub d3d12_device: usize,
    pub d3d12_queue: usize,
    pub feature_level: FeatureLevel,
}

impl DirectXSetup {
    /// Starts the setup.
    pub fn new(debug_build: bool, debug_interface_found: bool) -> (setup: Self)
        ensures
            setup.debug_layer_available == (debug_build && debug_interface_found),
        opens_invariants none
    {
        DirectXSetup {
            debug_layer_available: check_debug_layer_available(debug_build, debug_interface_found),
        }
    }

    /// What to make the DXGI factory with.
    pub fn factory_flags(&self) -> (flags: u32)
        ensures
            flags == factory_flags_for(self.debug_layer_available),
        opens_invariants none
    {
        if self.debug_layer_available {
            DXGI_CREATE_FACTORY_DEBUG
        } else {
            0
        }
    }

    /// Goes on after the factory was made.
    pub fn factory_created(self, created: Result<(), Vec<String>>) -> (next: Result<
        FactoryCreated,
        DirectXError,
    >)
        ensures
            next == match created {
                Ok(()) => Ok(FactoryCreated { debug_layer_available: self.debug_layer_available }),
                Err(causes) => Err(DirectXError::Factory { causes }),
            },
        opens_invariants none
    {
        match created {
            Ok(()) => Ok(FactoryCreated { debug_layer_available: self.debug_layer_available }),
            Err(causes) => Err(DirectXError::Factory { causes }),
        }
    }
}

impl FactoryCreated {
    /// Goes on after the DX12 context was made.
    pub fn dx12_created(self, created: Result<Dx12ExternalWgpuContext, ContextError>) -> (next:
        Result<DeviceBorrow, DirectXError>)
        ensures
            next == match created {
                Err(error) => Err(DirectXError::Dx12Context(error)),
                Ok(dx12) => match com_pointer_check(dx12.d3d12_device_raw, BORROWING_DEVICE) {
                    Err(error) => Err(DirectXError::Com(error)),
                    Ok(_) => Ok(
                        DeviceBorrow { debug_layer_available: self.debug_layer_available, dx12 },
                    ),
                },
            },
        opens_invariants none
    {
        match created {
            Err(error) => Err(DirectXError::Dx12Context(error)),
            Ok(dx12) => match check_com_pointer(dx12.d3d12_device_raw, BORROWING_DEVICE) {
                Err(error) => Err(DirectXError::Com(error)),
                Ok(_) => Ok(
                    DeviceBorrow { debug_layer_available: self.debug_layer_available, dx12 },
                ),
            },
        }
    }
}

impl DeviceBorrow {
    /// Goes on after the device was borrowed, or would not be.
    pub fn device_borrowed(self, borrowed: bool) -> (next: Result<QueueBorrow, DirectXError>)
        ensures
            next == match com_interface_check(borrowed, BORROWING_DEVICE) {
                Err(error) => Err(DirectXError::Com(error)),
                Ok(()) => match com_pointer_check(self.dx12.d3d12_queue_raw, BORROWING_QUEUE) {
                    Err(error) => Err(DirectXError::Com(error)),
                    Ok(_) => Ok(
                        QueueBorrow {
                            debug_layer_available: self.debug_layer_available,
                            dx12: self.dx12,
                        },
                    ),
                },
            },
        opens_invariants none
    {
        match check_com_interface(borrowed, BORROWING_DEVICE) {
            Err(error) => Err(DirectXError::Com(error)),
            Ok(()) => match check_com_pointer(self.dx12.d3d12_queue_raw, BORROWING_QUEUE) {
                Err(error) => Err(DirectXError::Com(error)),
                Ok(_) => Ok(
                    QueueBorrow {
                        debug_layer_available: self.debug_layer_available,
                        dx12: self.dx12,
                    },
                ),
            },
        }
    }
}

impl QueueBorrow {
    /// Goes on after the queue was borrowed, or would not be.
    pub fn queue_borrowed(self, borrowed: bool) -> (next: Result<AdapterLookup, DirectXError>)
        ensures
            next == match com_interface_check(borrowed, BORROWING_QUEUE) {
                Err(error) => Err(DirectXError::Com(error)),
                Ok(()) => Ok(
                    AdapterLookup {
                        debug_layer_available: self.debug_layer_available,
                        dx12: self.dx12,
                    },
                ),
            },
        opens_invariants none
    {
        match check_com_interface(borrowed, BORROWING_QUEUE) {
            Err(error) => Err(DirectXError::Com(error)),
            Ok(()) => Ok(
                AdapterLookup {
                    debug_layer_available: self.debug_layer_available,
                    dx12: self.dx12,
                },
            ),
        }
    }
}

impl AdapterLookup {
    /// Goes on after the adapter of the device was looked up.
    pub fn adapter_found(self, found: Result<(), Vec<String>>) -> (next: Result<
        QueueCast,
        DirectXError,
    >)
        ensures
            next == match found {
                Ok(()) => Ok(
                    QueueCast {
                        debug_layer_available: self.debug_layer_available,
                        dx12: self.dx12,
                    },
                ),
                Err(causes) => Err(DirectXError::Adapter { causes }),
            },
        opens_invariants none
    {
        match found {
            Ok(()) => Ok(
                QueueCast { debug_layer_available: self.debug_layer_available, dx12: self.dx12 },
            ),
            Err(causes) => Err(DirectXError::Adapter { causes }),
        }
    }
}

impl QueueCast {
    /// Goes on after the queue was cast.
    pub fn queue_cast(self, cast: Result<(), Vec<String>>) -> (next: Result<
        DeviceCreation,
        DirectXError,
    >)
        ensures
            next == match cast {
                Ok(()) => Ok(
                    DeviceCreation {
                        debug_layer_available: self.debug_layer_available,
                        dx12: self.dx12,
                    },
                ),
                Err(causes) => Err(DirectXError::D3d11On12(D3d11On12Error::QueueCast { causes })),
            },
        opens_invariants none
    {
        match cast {
            Ok(()) => Ok(
                DeviceCreation {
                    debug_layer_available: self.debug_layer_available,
                    dx12: self.dx12,
                },
            ),
            Err(causes) => Err(DirectXError::D3d11On12(D3d11On12Error::QueueCast { causes })),
        }
    }
}

impl DeviceCreation {
    /// What to make the device with.
    pub fn device_flags(&self) -> (flags: u32)
        ensures
            flags == device_flags_for(self.debug_layer_available),
        opens_invariants none
    {
        if self.debug_layer_available {
            D3D11_CREATE_DEVICE_BGRA_SUPPORT | D3D11_CREATE_DEVICE_DEBUG
        } else {
            D3D11_CREATE_DEVICE_BGRA_SUPPORT
        }
    }

    /// The feature levels to offer, best first.
    pub fn feature_levels(&self) -> (levels: [i32; 3])
        ensures
            levels@ == requested_levels(),
        opens_invariants none
    {
        let levels: [i32; 3] = [
            D3D_FEATURE_LEVEL_11_1,
            D3D_FEATURE_LEVEL_11_0,
            D3D_FEATURE_LEVEL_10_1,
        ];
        assert(levels@ =~= requested_levels());
        levels
    }

    /// The address of the D3D12 device to make the device on.
    pub fn d3d12_device(&self) -> (device: usize)
        ensures
            device == self.dx12.d3d12_device_raw,
        opens_invariants none
    {
        self.dx12.d3d12_device_raw
    }

    /// The addresses of the D3D12 command queues to make the device with: the one
    /// queue of the shared context.
    pub fn command_queues(&self) -> (queues: [usize; 1])
        ensures
            queues@ == seq![self.dx12.d3d12_queue_raw],
        opens_invariants none
    {
        let queues: [usize; 1] = [self.dx12.d3d12_queue_raw];
        assert(queues@ =~= seq![self.dx12.d3d12_queue_raw]);
        queues
    }

    /// The node of the D3D12 device to make the device for, as a mask: none in
    /// particular.
    pub fn node_mask(&self) -> (mask: u32)
        ensures
            mask == 0,
        opens_invariants none
    {
        0
    }

    /// Goes on after the call that makes the device, which may succeed and still
    /// give no device.
    pub fn device_created(self, call: Result<(), Vec<String>>, device_given: bool) -> (next: Result<
        FeatureCheck,
        DirectXError,
    >)
        ensures
            next == match creation_check(call, device_given) {
                Ok(()) => Ok(FeatureCheck { dx12: self.dx12 }),
                Err(error) => Err(DirectXError::D3d11On12(error)),
            },
        opens_invariants none
    {
        match call {
            Err(causes) => Err(DirectXError::D3d11On12(D3d11On12Error::Call { causes })),
            Ok(()) => {
                if device_given {
                    Ok(FeatureCheck { dx12: self.dx12 })
                } else {
                    Err(DirectXError::D3d11On12(D3d11On12Error::NoDevice))
                }
            },
        }
    }
}

impl FeatureCheck {
    /// Goes on after the device was asked for structured buffers. A device context
    /// that the call did not give is only missed once the device will do.
    pub fn features_checked(self, query: Result<i32, Vec<String>>, context_given: bool) -> (next:
        Result<DeviceCast, DirectXError>)
        ensures
            next == match feature_check(query) {
                Err(error) => Err(DirectXError::D3d11On12(error)),
                Ok(()) => if context_given {
                    Ok(DeviceCast { dx12: self.dx12 })
                } else {
                    Err(DirectXError::D3d11On12(D3d11On12Error::NoDeviceContext))
                },
            },
        opens_invariants none
    {
        match validate_d3d11_device_features(query) {
            Err(error) => Err(DirectXError::D3d11On12(error)),
            Ok(()) => {
                if context_given {
                    Ok(DeviceCast { dx12: self.dx12 })
                } else {
                    Err(DirectXError::D3d11On12(D3d11On12Error::NoDeviceContext))
                }
            },
        }
    }
}

impl DeviceCast {
    /// Goes on after the device was cast.
    pub fn device_cast(self, cast: Result<(), Vec<String>>) -> (next: Result<
        DevicesCreated,
        DirectXError,
    >)
        ensures
            next == match cast {
                Ok(()) => Ok(DevicesCreated { dx12: self.dx12 }),
                Err(causes) => Err(DirectXError::D3d11On12(D3d11On12Error::DeviceCast { causes })),
            },
        opens_invariants none
    {
        match cast {
            Ok(()) => Ok(DevicesCreated { dx12: self.dx12 }),
            Err(causes) => Err(DirectXError::D3d11On12(D3d11On12Error::DeviceCast { causes })),
        }
    }
}

impl DevicesCreated {
    /// Ends the setup. The device cannot have been made with a feature level that
    /// was not offered.
    pub fn finished(self, feature_level: FeatureLevel) -> (devices: DirectXDevices)
        ensures
            devices.external_wgpu_context == self.dx12.context,
            devices.d3d12_device == self.dx12.d3d12_device_raw,
            devices.d3d12_queue == self.dx12.d3d12_queue_raw,
            devices.feature_level == feature_level,
        opens_invariants none
    {
        DirectXDevices {
            external_wgpu_context: self.dx12.context,
            d3d12_device: self.dx12.d3d12_device_raw,
            d3d12_queue: self.dx12.d3d12_queue_raw,
            feature_level,
        }
    }
}

/// What the calls of a setup answer, each if it comes to be made.
pub struct DirectXAnswers {
    pub factory: Result<(), Vec<String>>,
    pub dx12: Result<Dx12ExternalWgpuContext, ContextError>,
    pub device_borrowed: bool,
    pub queue_borrowed: bool,
    pub adapter: Result<(), Vec<String>>,
    pub queue_cast: Result<(), Vec<String>>,
    pub call: Result<(), Vec<String>>,
    pub device_given: bool,
    pub features: Result<i32, Vec<String>>,
    pub context_given: bool,
    pub device_cast: Result<(), Vec<String>>,
}

/// How a setup ends that is given these answers: with the DX12 context that the
/// devices were made from, or with the error of the first call that went wrong.
pub open spec fn directx_outcome(answers: DirectXAnswers) -> Result<
    Dx12ExternalWgpuContext,
    DirectXError,
> {
    if answers.factory is Err {
        Err(DirectXError::Factory { causes: answers.factory->Err_0 })
    } else if answers.dx12 is Err {
        Err(DirectXError::Dx12Context(answers.dx12->Err_0))
    } else {
        match borrow_outcome(answers.dx12->Ok_0, answers.device_borrowed, answers.queue_borrowed) {
            Err(error) => Err(DirectXError::Com(error)),
            Ok(()) => if answers.adapter is Err {
                Err(DirectXError::Adapter { causes: answers.adapter->Err_0 })
            } else {
                match d3d11on12_outcome(answers) {
                    Err(error) => Err(DirectXError::D3d11On12(error)),
                    Ok(()) => Ok(answers.dx12->Ok_0),
                }
            },
        }
    }
}

/// How borrowing the native objects of `dx12` ends: the device comes first.
pub open spec fn borrow_outcome(
    dx12: Dx12ExternalWgpuContext,
    device_borrowed: bool,
    queue_borrowed: bool,
) -> Result<(), ComError> {
    if let Err(error) = com_pointer_check(dx12.d3d12_device_raw, BORROWING_DEVICE) {
        Err(error)
    } else if let Err(error) = com_interface_check(device_borrowed, BORROWING_DEVICE) {
        Err(error)
    } else if let Err(error) = com_pointer_check(dx12.d3d12_queue_raw, BORROWING_QUEUE) {
        Err(error)
    } else {
        com_interface_check(queue_borrowed, BORROWING_QUEUE)
    }
}

/// How making the D3D11-on-12 device ends.
pub open spec fn d3d11on12_outcome(answers: DirectXAnswers) -> Result<(), D3d11On12Error> {
    if answers.queue_cast is Err {
        Err(D3d11On12Error::QueueCast { causes: answers.queue_cast->Err_0 })
    } else if let Err(error) = creation_check(answers.call, answers.device_given) {
        Err(error)
    } else if let Err(error) = feature_check(answers.features) {
        Err(error)
    } else if !answers.context_given {
        Err(D3d11On12Error::NoDeviceContext)
    } else if answers.device_cast is Err {
        Err(D3d11On12Error::DeviceCast { causes: answers.device_cast->Err_0 })
    } else {
        Ok(())
    }
}

/// Replays a whole setup from the answers that its calls gave.
pub fn replay_directx_setup(
    debug_build: bool,
    debug_interface_found: bool,
    answers: DirectXAnswers,
    feature_level: FeatureLevel,
) -> (devices: Result<DirectXDevices, DirectXError>)
    ensures
        match directx_outcome(answers) {
            Ok(dx12) => {
                &&& devices is Ok
                &&& devices->Ok_0.external_wgpu_context == dx12.context
                &&& devices->Ok_0.d3d12_device == dx12.d3d12_device_raw
                &&& devices->Ok_0.d3d12_queue == dx12.d3d12_queue_raw
                &&& devices->Ok_0.feature_level == feature_level
            },
            Err(error) => devices == Err::<DirectXDevices, DirectXError>(error),
        },
    opens_invariants none
{
    let setup = DirectXSetup::new(debug_build, debug_interface_found);
    let stage = match setup.factory_created(answers.factory) {
        Ok(stage) => stage,
        Err(error) => return Err(error),
    };
    let stage = match stage.dx12_created(answers.dx12) {
        Ok(stage) => stage,
        Err(error) => return Err(error),
    };
    let stage = match stage.device_borrowed(answers.device_borrowed) {
        Ok(stage) => stage,
        Err(error) => return Err(error),
    };
    let stage = match stage.queue_borrowed(answers.queue_borrowed) {
        Ok(stage) => stage,
        Err(error) => return Err(error),
    };
    let stage = match stage.adapter_found(answers.adapter) {
        Ok(stage) => stage,
        Err(error) => return Err(error),
    };
    let stage = match stage.queue_cast(answers.queue_cast) {
        Ok(stage) => stage,
        Err(error) => return Err(error),
    };
    let stage = match stage.device_created(answers.call, answers.device_given) {
        Ok(stage) => stage,
        Err(error) => return Err(error),
    };
    let stage = match stage.features_checked(answers.features, answers.context_given) {
        Ok(stage) => stage,
        Err(error) => return Err(error),
    };
    let stage = match stage.device_cast(answers.device_cast) {
        Ok(stage) => stage,
        Err(error) => return Err(error),
    };
    Ok(stage.finished(feature_level))
}

/// The devices are made exactly when every call succeeds, neither native object
/// is null, and the device supports structured buffers. They are made from the
/// native objects of the DX12 context and of no other.
pub proof fn devices_need_every_call(answers: DirectXAnswers)
    ensures
        directx_outcome(answers) is Ok <==> {
            &&& answers.factory is Ok
            &&& answers.dx12 matches Ok(dx12) && dx12.d3d12_device_raw != 0 && dx12.d3d12_queue_raw
                != 0
            &&& answers.device_borrowed
            &&& answers.queue_borrowed
            &&& answers.adapter is Ok
            &&& answers.queue_cast is Ok
            &&& answers.call is Ok
            &&& answers.device_given
            &&& answers.features matches Ok(supported) && supported != 0
            &&& answers.context_given
            &&& answers.device_cast is Ok
        },
        directx_outcome(answers) is Ok ==> directx_outcome(answers)->Ok_0 == answers.dx12->Ok_0,
{
}

/// The device and the queue that the renderer draws with are the ones behind the
/// `wgpu` device, as they were read from it both times: a DX12 context made from
/// these readings hands them on to the devices unchanged, and neither is null.
pub proof fn renderer_draws_with_the_device_of_wgpu(
    adapter: Result<AdapterFacts, String>,
    created: Result<(wgpu::Device, wgpu::Queue), Vec<String>>,
    read: Option<Dx12Handles>,
    read_again: Option<Dx12Handles>,
    answers: DirectXAnswers,
)
    requires
        dx12_outcome(adapter, created, read, read_again) matches Ok((_, handles))
            && answers.dx12 matches Ok(dx12) && dx12.d3d12_device_raw == handles.device
            && dx12.d3d12_queue_raw == handles.queue,
        directx_outcome(answers) is Ok,
    ensures
        read is Some,
        read_again == read,
        directx_outcome(answers)->Ok_0.d3d12_device_raw == read->0.device,
        directx_outcome(answers)->Ok_0.d3d12_queue_raw == read->0.queue,
        read->0.device != 0,
        read->0.queue != 0,
{
    dx12_context_needs_dx12_throughout(adapter, created, read, read_again);
    devices_need_every_call(answers);
}

/// Factory and device report to the debug layer exactly where it is available,
/// and the device always supports BGRA surfaces.
pub proof fn debug_flags_follow_the_debug_layer(debug_layer_available: bool)
    ensures
        (factory_flags_for(debug_layer_available) & DXGI_CREATE_FACTORY_DEBUG != 0)
            == debug_layer_available,
        (device_flags_for(debug_layer_available) & D3D11_CREATE_DEVICE_DEBUG != 0)
            == debug_layer_available,
        device_flags_for(debug_layer_available) & D3D11_CREATE_DEVICE_BGRA_SUPPORT != 0,
{
    assert(0x1u32 & 0x1u32 != 0 && 0u32 & 0x1u32 == 0) by (bit_vector);
    assert((0x20u32 | 0x2u32) & 0x2u32 != 0 && 0x20u32 & 0x2u32 == 0) by (bit_vector);
    assert((0x20u32 | 0x2u32) & 0x20u32 != 0 && 0x20u32 & 0x20u32 != 0) by (bit_vector);
}

/// A setup ends with the first thing that is wrong, in the order of its calls, and
/// with the devices where nothing is. The devices have the shared context, the
/// device and the queue of the DX12 context, and the feature level of the device.
pub proof fn a_directx_setup_ends_with_the_first_thing_wrong(
    debug_build: bool,
    debug_interface_found: bool,
    answers: DirectXAnswers,
    feature_level: FeatureLevel,
    devices: Result<DirectXDevices, DirectXError>,
)
    requires
        call_ensures(
            replay_directx_setup,
            (debug_build, debug_interface_found, answers, feature_level),
            devices,
        ),
    ensures
        if answers.factory is Err {
            failed_with(devices, DirectXError::Factory { causes: answers.factory->Err_0 })
        } else if answers.dx12 is Err {
            failed_with(devices, DirectXError::Dx12Context(answers.dx12->Err_0))
        } else if answers.dx12->Ok_0.d3d12_device_raw == 0 {
            failed_with(
                devices,
                DirectXError::Com(ComError::NullPointer { context: BORROWING_DEVICE }),
            )
        } else if !answers.device_borrowed {
            failed_with(
                devices,
                DirectXError::Com(ComError::NoInterface { context: BORROWING_DEVICE }),
            )
        } else if answers.dx12->Ok_0.d3d12_queue_raw == 0 {
            failed_with(
                devices,
                DirectXError::Com(ComError::NullPointer { context: BORROWING_QUEUE }),
            )
        } else if !answers.queue_borrowed {
            failed_with(
                devices,
                DirectXError::Com(ComError::NoInterface { context: BORROWING_QUEUE }),
            )
        } else if answers.adapter is Err {
            failed_with(devices, DirectXError::Adapter { causes: answers.adapter->Err_0 })
        } else if answers.queue_cast is Err {
            failed_with(
                devices,
                DirectXError::D3d11On12(
                    D3d11On12Error::QueueCast { causes: answers.queue_cast->Err_0 },
                ),
            )
        } else if answers.call is Err {
            failed_with(
                devices,
                DirectXError::D3d11On12(D3d11On12Error::Call { causes: answers.call->Err_0 }),
            )
        } else if !answers.device_given {
            failed_with(devices, DirectXError::D3d11On12(D3d11On12Error::NoDevice))
        } else if answers.features is Err {
            failed_with(
                devices,
                DirectXError::D3d11On12(
                    D3d11On12Error::FeatureQuery { causes: answers.features->Err_0 },
                ),
            )
        } else if answers.features->Ok_0 == 0 {
            failed_with(
                devices,
                DirectXError::D3d11On12(D3d11On12Error::StructuredBuffersUnsupported),
            )
        } else if !answers.context_given {
            failed_with(devices, DirectXError::D3d11On12(D3d11On12Error::NoDeviceContext))
        } else if answers.device_cast is Err {
            failed_with(
                devices,
                DirectXError::D3d11On12(
                    D3d11On12Error::DeviceCast { causes: answers.device_cast->Err_0 },
                ),
            )
        } else {
            &&& devices is Ok
            &&& devices->Ok_0.external_wgpu_context == answers.dx12->Ok_0.context
            &&& devices->Ok_0.d3d12_device == answers.dx12->Ok_0.d3d12_device_raw
            &&& devices->Ok_0.d3d12_queue == answers.dx12->Ok_0.d3d12_queue_raw
            &&& devices->Ok_0.feature_level == feature_level
        },
{
}

/// Whether a setup failed with `error`.
pub open spec fn failed_with(
    devices: Result<DirectXDevices, DirectXError>,
    error: DirectXError,
) -> bool {
    devices == Err::<DirectXDevices, DirectXError>(error)
}

/// The number that Direct3D has for a level leads back to the level, and a number
/// that it has for none of them leads to nothing.
pub proof fn numbers_tell_the_levels_apart(number: i32, level: Option<FeatureLevel>)
    requires
        call_ensures(FeatureLevel::from_number, (number,), level),
    ensures
        number == 0xb100 <==> level == Some(FeatureLevel::Direct3D11p1),
        number == 0xb000 <==> level == Some(FeatureLevel::Direct3D11p0),
        number == 0xa100 <==> level == Some(FeatureLevel::Direct3D10p1),
        number != 0xb100 && number != 0xb000 && number != 0xa100 ==> level is None,
{
    let levels = requested_levels();
    assert(levels[0] == 0xb100 && levels[1] == 0xb000 && levels[2] == 0xa100);
}

} // verus!
