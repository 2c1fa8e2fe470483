//! A DX12 context whose native device and queue are known and checked.
//!
//! `wgpu` owns the DX12 device; the host derives its own renderer from the very
//! device and command queue behind it. There is no fall-back: whatever is not
//! DX12 on the way is an error.
//!
//! Native objects are known by their address.
//!
//! From the device on, a stage opens no invariant, so none of them raises a
//! device-lost flag.

use crate::error::ContextError;
use crate::external_context::{
    discard_report, handed_to, made_with, told_to_record_loss, ExternalWgpuContext,
};
use crate::graphics::{is_downlevel_otherwise, limits_for, required_limits, DeviceRequest};
use vstd::prelude::*;

verus! {

/// `wgpu::Surface`, a handle to something that can be presented to.
#[verifier::external_type_specification]
#[verifier::external_body]
pub struct ExSurface<'window>(wgpu::Surface<'window>);

/// The record behind `wgpu::RequestAdapterOptions`, generic in its surface.
#[verifier::external_type_specification]
#[verifier::reject_recursive_types(S)]
pub struct ExRequestAdapterOptions<S>(wgpu::wgt::RequestAdapterOptions<S>);

/// `wgpu::Backends`, a set of graphics interfaces kept private by its crate.
#[verifier::external_type_specification]
#[verifier::external_body]
pub struct ExBackends(wgpu::Backends);

/// The graphics interfaces in `backends`.
pub uninterp spec fn backends_in(backends: wgpu::Backends) -> Set<wgpu::Backend>;

/// `wgpu::Backends::from` gives the set of the one interface.
#[verifier::external_body]
fn only_backend(backend: wgpu::Backend) -> (backends: wgpu::Backends)
    ensures
        backends_in(backends) == Set::<wgpu::Backend>::empty().insert(backend),
{
    wgpu::Backends::from(backend)
}

/// The adapter to ask for.
#[derive(Clone, Copy)]
pub struct AdapterRequest {
    /// The only graphics interface to consider.
    pub backend: wgpu::Backend,
    pub power_preference: wgpu::PowerPreference,
    /// Whether nothing but a software adapter will do.
    pub force_fallback_adapter: bool,
}

/// What an adapter says of itself.
pub struct AdapterFacts {
    pub name: String,
    pub backend: wgpu::Backend,
    pub limits: wgpu::Limits,
}

/// The D3D12 device and command queue behind a `wgpu` device.
#[derive(Clone, Copy, Debug, PartialEq, Eq, Structural)]
pub struct Dx12Handles {
    pub device: usize,
    pub queue: usize,
}

/// A device and queue given by the adapter, of which nothing native is known yet.
pub struct Dx12Device {
    pub device: wgpu::Device,
    pub queue: wgpu::Queue,
}

/// A device and queue with the native objects behind them, not yet checked.
pub struct IdentifiedDx12Device {
    pub device: wgpu::Device,
    pub queue: wgpu::Queue,
    pub handles: Dx12Handles,
}

/// A shared context backed by DX12, with the native objects behind it.
pub struct Dx12ExternalWgpuContext {
    pub context: ExternalWgpuContext,
    pub d3d12_device_raw: usize,
    pub d3d12_queue_raw: usize,
}

/// What is requested of the adapter that answered, if it is one to use.
pub open spec fn device_request_for(answer: Result<AdapterFacts, String>) -> Result<
    DeviceRequest,
    ContextError,
> {
    match answer {
        Err(error) => Err(ContextError::AdapterRequest { error }),
        Ok(adapter) => if adapter.backend is Dx12 {
            Ok(
                DeviceRequest {
                    label: "gpui_windows_external_compositor_device",
                    required_limits: limits_for(adapter.limits),
                },
            )
        } else {
            Err(ContextError::AdapterNotDx12 { name: adapter.name, backend: adapter.backend })
        },
    }
}

/// Whether the native objects `found` behind a `wgpu` device are the `expected`
/// ones. The device is compared first.
pub open spec fn dx12_identity(found: Option<Dx12Handles>, expected: Dx12Handles) -> Result<
    (),
    ContextError,
> {
    match found {
        None => Err(ContextError::DeviceNotDx12),
        Some(handles) => if handles.device != expected.device {
            Err(
                ContextError::Dx12DeviceMismatch {
                    wgpu_device: handles.device,
                    expected: expected.device,
                },
            )
        } else if handles.queue != expected.queue {
            Err(
                ContextError::Dx12QueueMismatch {
                    wgpu_queue: handles.queue,
                    expected: expected.queue,
                },
            )
        } else {
            Ok(())
        },
    }
}

impl AdapterRequest {
    /// Asks for a fast DX12 adapter, which needs no surface to present to.
    pub fn dx12() -> (request: Self)
        ensures
            request.backend is Dx12,
            request.power_preference is HighPerformance,
            !request.force_fallback_adapter,
    {
        AdapterRequest {
            backend: wgpu::Backend::Dx12,
            power_preference: wgpu::PowerPreference::HighPerformance,
            force_fallback_adapter: false,
        }
    }

    /// The graphics interfaces to make the instance with: the requested one.
    pub fn backends(&self) -> (backends: wgpu::Backends)
        ensures
            backends_in(backends) == Set::<wgpu::Backend>::empty().insert(self.backend),
    {
        only_backend(self.backend)
    }

    /// What to ask the instance for, in the form that `wgpu` takes it.
    pub fn options(&self) -> (options: wgpu::RequestAdapterOptions<'static, 'static>)
        ensures
            options.power_preference == self.power_preference,
            options.force_fallback_adapter == self.force_fallback_adapter,
            options.compatible_surface is None,
    {
        wgpu::RequestAdapterOptions {
            power_preference: self.power_preference,
            force_fallback_adapter: self.force_fallback_adapter,
            compatible_surface: None,
        }
    }

    /// Takes the adapter that was found, or the message of the refusal.
    pub fn answered(self, answer: Result<AdapterFacts, String>) -> (request: Result<
        DeviceRequest,
        ContextError,
    >)
        ensures
            request == device_request_for(answer),
            match answer {
                Err(error) => request == Err::<DeviceRequest, ContextError>(
                    ContextError::AdapterRequest { error },
                ),
                Ok(adapter) => match request {
                    Ok(request) => {
                        let limits = request.required_limits;
                        &&& adapter.backend is Dx12
                        &&& request.label@ == "gpui_windows_external_compositor_device"@
                        &&& limits.max_texture_dimension_1d
                            == adapter.limits.max_texture_dimension_1d
                        &&& limits.max_texture_dimension_2d
                            == adapter.limits.max_texture_dimension_2d
                        &&& limits.max_texture_dimension_3d
                            == adapter.limits.max_texture_dimension_3d
                        &&& limits.min_uniform_buffer_offset_alignment
                            == adapter.limits.min_uniform_buffer_offset_alignment
                        &&& limits.min_storage_buffer_offset_alignment
                            == adapter.limits.min_storage_buffer_offset_alignment
                        &&& is_downlevel_otherwise(limits)
                    },
                    Err(error) => {
                        &&& !(adapter.backend is Dx12)
                        &&& error == ContextError::AdapterNotDx12 {
                            name: adapter.name,
                            backend: adapter.backend,
                        }
                    },
                },
            },
    {
        match answer {
            Err(error) => Err(ContextError::AdapterRequest { error }),
            Ok(adapter) => match adapter.backend {
                wgpu::Backend::Dx12 => Ok(
                    DeviceRequest {
                        label: "gpui_windows_external_compositor_device",
                        required_limits: required_limits(adapter.limits),
                    },
                ),
                _ => Err(
                    ContextError::AdapterNotDx12 { name: adapter.name, backend: adapter.backend },
                ),
            },
        }
    }
}

impl Dx12Device {
    /// Takes the device and queue that the adapter gave, or the messages of its
    /// refusal.
    pub fn created(created: Result<(wgpu::Device, wgpu::Queue), Vec<String>>) -> (device: Result<
        Self,
        ContextError,
    >)
        ensures
            device == match created {
                Ok((device, queue)) => Ok(Dx12Device { device, queue }),
                Err(causes) => Err(ContextError::DeviceRequest { causes }),
            },
        opens_invariants none
    {
        match created {
            Ok((device, queue)) => Ok(Dx12Device { device, queue }),
            Err(causes) => Err(ContextError::DeviceRequest { causes }),
        }
    }

    /// Takes the native objects behind the device, or nothing where it does not
    /// use DX12.
    pub fn identified(self, handles: Option<Dx12Handles>) -> (device: Result<
        IdentifiedDx12Device,
        ContextError,
    >)
        ensures
            device == match handles {
                Some(handles) => Ok(
                    IdentifiedDx12Device { device: self.device, queue: self.queue, handles },
                ),
                None => Err(ContextError::DeviceNotDx12),
            },
        opens_invariants none
    {
        match handles {
            Some(handles) => Ok(
                IdentifiedDx12Device { device: self.device, queue: self.queue, handles },
            ),
            None => Err(ContextError::DeviceNotDx12),
        }
    }
}

/// Checks that the native objects behind a `wgpu` device are the expected ones.
/// `found` is nothing where the device or its queue does not use DX12.
pub fn validate_dx12_handles(
    found: Option<Dx12Handles>,
    d3d12_device_raw: usize,
    d3d12_queue_raw: usize,
) -> (res: Result<(), ContextError>)
    ensures
        res == dx12_identity(
            found,
            (Dx12Handles { device: d3d12_device_raw, queue: d3d12_queue_raw }),
        ),
    opens_invariants none
{
    let Some(handles) = found else {
        return Err(ContextError::DeviceNotDx12);
    };
    if handles.device != d3d12_device_raw {
        return Err(
            ContextError::Dx12DeviceMismatch {
                wgpu_device: handles.device,
                expected: d3d12_device_raw,
            },
        );
    }
    if handles.queue != d3d12_queue_raw {
        return Err(
            ContextError::Dx12QueueMismatch { wgpu_queue: handles.queue, expected: d3d12_queue_raw },
        );
    }
    Ok(())
}

impl Dx12ExternalWgpuContext {
    /// Shares an identified device, once the native objects behind it are read
    /// again as `found` and still are the same. The text of a later loss is handed
    /// to `report`.
    pub fn new<R: Fn(String) + Send + 'static>(
        made: IdentifiedDx12Device,
        found: Option<Dx12Handles>,
        report: R,
    ) -> (context: Result<Self, ContextError>)
        requires
            forall|text: String| call_requires(report, (text,)),
        ensures
            match dx12_identity(found, made.handles) {
                Ok(()) => {
                    &&& context is Ok
                    &&& *context->Ok_0.context.device == made.device
                    &&& *context->Ok_0.context.queue == made.queue
                    &&& !made_with(*context->Ok_0.context.device_lost)
                    &&& told_to_record_loss(
                        made.device,
                        *context->Ok_0.context.device_lost,
                        handed_to(report),
                    )
                    &&& context->Ok_0.d3d12_device_raw == made.handles.device
                    &&& context->Ok_0.d3d12_queue_raw == made.handles.queue
                },
                Err(error) => context == Err::<Self, ContextError>(error),
            },
        opens_invariants none
    {
        match validate_dx12_handles(found, made.handles.device, made.handles.queue) {
            Ok(()) => Ok(
                Dx12ExternalWgpuContext {
                    context: ExternalWgpuContext::with_report(made.device, made.queue, report),
                    d3d12_device_raw: made.handles.device,
                    d3d12_queue_raw: made.handles.queue,
                },
            ),
            Err(error) => Err(error),
        }
    }
}

/// The native resource of a texture to sample, or an error where the texture is
/// not a DX12 texture and has none.
pub fn dx12_texture_resource_raw(resource: Option<usize>) -> (raw: Result<usize, ContextError>)
    ensures
        raw == match resource {
            Some(address) => Ok(address),
            None => Err(ContextError::TextureNotDx12),
        },
    opens_invariants none
{
    match resource {
        Some(address) => Ok(address),
        None => Err(ContextError::TextureNotDx12),
    }
}

/// Whether a DX12 context is made, and around which device and native objects,
/// from what the calls on the way answered: the adapter, its device, and the two
/// readings of the native objects.
pub open spec fn dx12_outcome(
    adapter: Result<AdapterFacts, String>,
    created: Result<(wgpu::Device, wgpu::Queue), Vec<String>>,
    read: Option<Dx12Handles>,
    read_again: Option<Dx12Handles>,
) -> Result<((wgpu::Device, wgpu::Queue), Dx12Handles), ContextError> {
    match device_request_for(adapter) {
        Err(error) => Err(error),
        Ok(_) => match created {
            Err(causes) => Err(ContextError::DeviceRequest { causes }),
            Ok(pair) => match read {
                None => Err(ContextError::DeviceNotDx12),
                Some(handles) => match dx12_identity(read_again, handles) {
                    Err(error) => Err(error),
                    Ok(()) => Ok((pair, handles)),
                },
            },
        },
    }
}

/// Replays the making of a context from the answers that its calls gave.
pub fn replay_dx12_setup(
    adapter: Result<AdapterFacts, String>,
    created: Result<(wgpu::Device, wgpu::Queue), Vec<String>>,
    read: Option<Dx12Handles>,
    read_again: Option<Dx12Handles>,
) -> (context: Result<Dx12ExternalWgpuContext, ContextError>)
    ensures
        match dx12_outcome(adapter, created, read, read_again) {
            Ok(((device, queue), handles)) => {
                &&& context is Ok
                &&& *context->Ok_0.context.device == device
                &&& *context->Ok_0.context.queue == queue
                &&& !made_with(*context->Ok_0.context.device_lost)
                &&& told_to_record_loss(
                    device,
                    *context->Ok_0.context.device_lost,
                    handed_to(discard_report),
                )
                &&& context->Ok_0.d3d12_device_raw == handles.device
                &&& context->Ok_0.d3d12_queue_raw == handles.queue
            },
            Err(error) => context == Err::<Dx12ExternalWgpuContext, ContextError>(error),
        },
{
    AdapterRequest::dx12().answered(adapter)?;
    let device = Dx12Device::created(created)?;
    let device = device.identified(read)?;
    Dx12ExternalWgpuContext::new(device, read_again, discard_report)
}

/// Every DX12 adapter is asked for a device with its own texture dimensions and
/// buffer offset alignments, whatever they are, and with the downlevel value of
/// every other limit; an adapter of any other kind is asked for nothing.
pub proof fn a_dx12_adapter_is_asked_for_what_it_has(
    request: AdapterRequest,
    adapter: AdapterFacts,
    asked: Result<DeviceRequest, ContextError>,
)
    requires
        call_ensures(
            AdapterRequest::answered,
            (request, Ok::<AdapterFacts, String>(adapter)),
            asked,
        ),
    ensures
        asked is Ok <==> adapter.backend is Dx12,
        asked matches Ok(asked) ==> {
            let limits = asked.required_limits;
            &&& limits.max_texture_dimension_1d == adapter.limits.max_texture_dimension_1d
            &&& limits.max_texture_dimension_2d == adapter.limits.max_texture_dimension_2d
            &&& limits.max_texture_dimension_3d == adapter.limits.max_texture_dimension_3d
            &&& limits.min_uniform_buffer_offset_alignment
                == adapter.limits.min_uniform_buffer_offset_alignment
            &&& limits.min_storage_buffer_offset_alignment
                == adapter.limits.min_storage_buffer_offset_alignment
            &&& is_downlevel_otherwise(limits)
        },
        asked matches Err(error) ==> error == (ContextError::AdapterNotDx12 {
            name: adapter.name,
            backend: adapter.backend,
        }),
{
}

/// A context is made exactly when the adapter uses DX12, the device is given, it
/// uses DX12, and reading its native objects twice gives the same device and the
/// same queue. It holds that device and those objects.
pub proof fn dx12_context_needs_dx12_throughout(
    adapter: Result<AdapterFacts, String>,
    created: Result<(wgpu::Device, wgpu::Queue), Vec<String>>,
    read: Option<Dx12Handles>,
    read_again: Option<Dx12Handles>,
)
    ensures
        dx12_outcome(adapter, created, read, read_again) is Ok <==> {
            &&& adapter matches Ok(facts) && facts.backend is Dx12
            &&& created is Ok
            &&& read is Some
            &&& read_again == read
        },
        dx12_outcome(adapter, created, read, read_again) is Ok ==> dx12_outcome(
            adapter,
            created,
            read,
            read_again,
        )->Ok_0 == (created->Ok_0, read->0),
{
}

/// A device is shared exactly if reading its native objects again gives the same
/// device and the same queue. It is shared as it is, with a flag that was made down
/// and that the loss of this device raises. Otherwise the error says what differs,
/// the device before the queue.
pub proof fn only_the_same_dx12_device_is_shared<R: Fn(String) + Send + 'static>(
    made: IdentifiedDx12Device,
    found: Option<Dx12Handles>,
    report: R,
    context: Result<Dx12ExternalWgpuContext, ContextError>,
)
    requires
        call_ensures(Dx12ExternalWgpuContext::new::<R>, (made, found, report), context),
    ensures
        context is Ok <==> found == Some(made.handles),
        context matches Ok(context) ==> {
            &&& *context.context.device == made.device
            &&& *context.context.queue == made.queue
            &&& !made_with(*context.context.device_lost)
            &&& told_to_record_loss(made.device, *context.context.device_lost, handed_to(report))
            &&& context.d3d12_device_raw == made.handles.device
            &&& context.d3d12_queue_raw == made.handles.queue
        },
        context matches Err(error) ==> match found {
            None => error == ContextError::DeviceNotDx12,
            Some(handles) => if handles.device != made.handles.device {
                error == ContextError::Dx12DeviceMismatch {
                    wgpu_device: handles.device,
                    expected: made.handles.device,
                }
            } else {
                error == ContextError::Dx12QueueMismatch {
                    wgpu_queue: handles.queue,
                    expected: made.handles.queue,
                }
            },
        },
{
}

/// The making of a DX12 context ends with the first thing that is wrong, in the
/// order in which things are looked at, and with a context where nothing is.
pub proof fn a_dx12_setup_ends_with_the_first_thing_wrong(
    adapter: Result<AdapterFacts, String>,
    created: Result<(wgpu::Device, wgpu::Queue), Vec<String>>,
    read: Option<Dx12Handles>,
    read_again: Option<Dx12Handles>,
    context: Result<Dx12ExternalWgpuContext, ContextError>,
)
    requires
        call_ensures(replay_dx12_setup, (adapter, created, read, read_again), context),
    ensures
        if adapter is Err {
            context == Err::<Dx12ExternalWgpuContext, ContextError>(
                ContextError::AdapterRequest { error: adapter->Err_0 },
            )
        } else if !(adapter->Ok_0.backend is Dx12) {
            context == Err::<Dx12ExternalWgpuContext, ContextError>(
                ContextError::AdapterNotDx12 {
                    name: adapter->Ok_0.name,
                    backend: adapter->Ok_0.backend,
                },
            )
        } else if created is Err {
            context == Err::<Dx12ExternalWgpuContext, ContextError>(
                ContextError::DeviceRequest { causes: created->Err_0 },
            )
        } else if read is None || read_again is None {
            context == Err::<Dx12ExternalWgpuContext, ContextError>(ContextError::DeviceNotDx12)
        } else if read_again->0.device != read->0.device {
            context == Err::<Dx12ExternalWgpuContext, ContextError>(
                ContextError::Dx12DeviceMismatch {
                    wgpu_device: read_again->0.device,
                    expected: read->0.device,
                },
            )
        } else if read_again->0.queue != read->0.queue {
            context == Err::<Dx12ExternalWgpuContext, ContextError>(
                ContextError::Dx12QueueMismatch {
                    wgpu_queue: read_again->0.queue,
                    expected: read->0.queue,
                },
            )
        } else {
            &&& context is Ok
            &&& *context->Ok_0.context.device == created->Ok_0.0
            &&& *context->Ok_0.context.queue == created->Ok_0.1
            &&& !made_with(*context->Ok_0.context.device_lost)
            &&& told_to_record_loss(
                created->Ok_0.0,
                *context->Ok_0.context.device_lost,
                handed_to(discard_report),
            )
            &&& context->Ok_0.d3d12_device_raw == read->0.device
            &&& context->Ok_0.d3d12_queue_raw == read->0.queue
        },
{
}

} // verus!
