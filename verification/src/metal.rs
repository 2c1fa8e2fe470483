//! From a Metal device to a context backed by it.
//!
//! Adapters are opened one after the other until one turns out to be the device
//! to share. That adapter then gives the `wgpu` device, whose identity is checked
//! once more before anything is shared.
//!
//! Devices are known by their address; the null address is no device.
//!
//! A stage opens no invariant, so none of them raises a device-lost flag.

use crate::error::ContextError;
use crate::external_context::{
    discard_report, handed_to, made_with, told_to_record_loss, ExternalWgpuContext,
};
use crate::graphics::{is_downlevel_otherwise, limits_for, required_limits, DeviceRequest};
use vstd::prelude::*;

verus! {

/// The Metal device that is to be shared.
#[derive(Clone, Copy, Debug, PartialEq, Eq, Structural)]
pub struct MetalTarget {
    pub metal_device: usize,
}

/// The search for an adapter that opens the Metal device: the adapter at
/// `current` is to be opened next, out of `adapter_count`.
#[derive(Clone, Copy, Debug, PartialEq, Eq, Structural)]
pub struct MetalSearch {
    pub metal_device: usize,
    pub adapter_count: usize,
    pub current: usize,
}

/// How the search goes on after an adapter was opened.
#[derive(Clone, Copy, Debug, PartialEq, Eq, Structural)]
pub enum SearchStep {
    /// The adapter is of no use: open the next one.
    TryNext(MetalSearch),
    /// The adapter opened the Metal device: have it make the `wgpu` device.
    CreateDevice(MetalMatch),
}

/// The adapter that opened the Metal device, by its position.
#[derive(Clone, Copy, Debug, PartialEq, Eq, Structural)]
pub struct MetalMatch {
    pub metal_device: usize,
    pub adapter: usize,
}

/// The `wgpu` device made on the matching adapter, not yet checked.
pub struct MetalDevice {
    pub metal_device: usize,
    pub device: wgpu::Device,
    pub queue: wgpu::Queue,
}

/// The check of a Metal device for sharing: it must not be null.
pub open spec fn target_for(metal_device: usize) -> Result<MetalTarget, ContextError> {
    if metal_device == 0 {
        Err(ContextError::NullMetalDevice)
    } else {
        Ok(MetalTarget { metal_device })
    }
}

/// Where the search starts among `adapter_count` adapters of an instance that
/// uses Metal or does not.
pub open spec fn search_start(
    target: MetalTarget,
    backed_by_metal: bool,
    adapter_count: usize,
) -> Result<MetalSearch, ContextError> {
    if !backed_by_metal {
        Err(ContextError::InstanceNotMetal)
    } else if adapter_count == 0 {
        Err(ContextError::NoMetalAdapter { metal_device: target.metal_device })
    } else {
        Ok(MetalSearch { metal_device: target.metal_device, adapter_count, current: 0 })
    }
}

/// How the search goes on when the current adapter opened the device `opened`,
/// or none.
pub open spec fn search_step(search: MetalSearch, opened: Option<usize>) -> Result<
    SearchStep,
    ContextError,
> {
    if opened == Some(search.metal_device) {
        Ok(
            SearchStep::CreateDevice(
                MetalMatch { metal_device: search.metal_device, adapter: search.current },
            ),
        )
    } else if search.current + 1 < search.adapter_count {
        Ok(
            SearchStep::TryNext(
                MetalSearch { current: (search.current + 1) as usize, ..search },
            ),
        )
    } else {
        Err(ContextError::NoMetalAdapter { metal_device: search.metal_device })
    }
}

/// Where a search ends that starts at `search`, when the adapter at each
/// position `i` opens the device `opened[i]`, or none.
pub open spec fn search_result(search: MetalSearch, opened: Seq<Option<usize>>) -> Result<
    MetalMatch,
    ContextError,
>
    decreases search.adapter_count - search.current,
{
    match search_step(search, opened[search.current as int]) {
        Ok(SearchStep::CreateDevice(found)) => Ok(found),
        Ok(SearchStep::TryNext(next)) => search_result(next, opened),
        Err(error) => Err(error),
    }
}

/// Whether the Metal device behind a `wgpu` device, if any, is `metal_device`.
pub open spec fn metal_identity(wgpu_device: Option<usize>, metal_device: usize) -> Result<
    (),
    ContextError,
> {
    match wgpu_device {
        None => Err(ContextError::DeviceNotMetal),
        Some(address) => if address == metal_device {
            Ok(())
        } else {
            Err(ContextError::MetalDeviceMismatch { wgpu_device: address, metal_device })
        },
    }
}

/// Checks that a `wgpu` device uses `metal_device`. `wgpu_device` is the Metal
/// device behind it, or nothing where it does not use Metal.
pub fn validate_metal_device(wgpu_device: Option<usize>, metal_device: usize) -> (res: Result<
    (),
    ContextError,
>)
    ensures
        res == metal_identity(wgpu_device, metal_device),
    opens_invariants none
{
    match wgpu_device {
        None => Err(ContextError::DeviceNotMetal),
        Some(address) => {
            if address != metal_device {
                return Err(ContextError::MetalDeviceMismatch { wgpu_device: address, metal_device });
            }
            Ok(())
        },
    }
}

impl MetalTarget {
    /// Starts to share `metal_device`.
    pub fn new(metal_device: usize) -> (target: Result<Self, ContextError>)
        ensures
            target == target_for(metal_device),
        opens_invariants none
    {
        if metal_device == 0 {
            return Err(ContextError::NullMetalDevice);
        }
        Ok(MetalTarget { metal_device })
    }

    /// Starts the search once the instance was asked whether it uses Metal and
    /// how many adapters it has.
    pub fn instance_opened(self, backed_by_metal: bool, adapter_count: usize) -> (search: Result<
        MetalSearch,
        ContextError,
    >)
        ensures
            search == search_start(self, backed_by_metal, adapter_count),
        opens_invariants none
    {
        if !backed_by_metal {
            return Err(ContextError::InstanceNotMetal);
        }
        if adapter_count == 0 {
            return Err(ContextError::NoMetalAdapter { metal_device: self.metal_device });
        }
        Ok(MetalSearch { metal_device: self.metal_device, adapter_count, current: 0 })
    }
}

impl MetalSearch {
    /// What to open the current adapter with, and what to request from it if it
    /// turns out to match.
    pub fn device_request(&self, adapter_limits: wgpu::Limits) -> (request: DeviceRequest)
        ensures
            request == (DeviceRequest {
                label: "gpui_external_compositor_device",
                required_limits: limits_for(adapter_limits),
            }),
    {
        DeviceRequest {
            label: "gpui_external_compositor_device",
            required_limits: required_limits(adapter_limits),
        }
    }

    /// Goes on after the current adapter was opened. `opened` is the Metal device
    /// that it opened, or nothing where it would not open.
    pub fn adapter_opened(self, opened: Option<usize>) -> (step: Result<SearchStep, ContextError>)
        ensures
            step == search_step(self, opened),
        opens_invariants none
    {
        if let Some(address) = opened {
            if address == self.metal_device {
                return Ok(
                    SearchStep::CreateDevice(
                        MetalMatch { metal_device: self.metal_device, adapter: self.current },
                    ),
                );
            }
        }
        if self.current < self.adapter_count && self.adapter_count - self.current > 1 {
            Ok(SearchStep::TryNext(MetalSearch { current: self.current + 1, ..self }))
        } else {
            Err(ContextError::NoMetalAdapter { metal_device: self.metal_device })
        }
    }
}

impl MetalMatch {
    /// Takes the device and queue that the matching adapter gave, or the messages
    /// of its refusal.
    pub fn device_created(
        self,
        created: Result<(wgpu::Device, wgpu::Queue), Vec<String>>,
    ) -> (device: Result<MetalDevice, ContextError>)
        ensures
            device == match created {
                Ok((device, queue)) => Ok(
                    MetalDevice { metal_device: self.metal_device, device, queue },
                ),
                Err(causes) => Err(ContextError::MetalDeviceCreation { causes }),
            },
        opens_invariants none
    {
        match created {
            Ok((device, queue)) => Ok(
                MetalDevice { metal_device: self.metal_device, device, queue },
            ),
            Err(causes) => Err(ContextError::MetalDeviceCreation { causes }),
        }
    }
}

impl ExternalWgpuContext {
    /// Shares a device made for a Metal device, once its identity is checked.
    /// `wgpu_device` is the Metal device that it uses in fact, or nothing where it
    /// does not use Metal. The text of a later loss is handed to `report`.
    pub fn from_metal_device<R: Fn(String) + Send + 'static>(
        made: MetalDevice,
        wgpu_device: Option<usize>,
        report: R,
    ) -> (context: Result<Self, ContextError>)
        requires
            forall|text: String| call_requires(report, (text,)),
        ensures
            match metal_identity(wgpu_device, made.metal_device) {
                Ok(()) => {
                    &&& context is Ok
                    &&& *context->Ok_0.device == made.device
                    &&& *context->Ok_0.queue == made.queue
                    &&& !made_with(*context->Ok_0.device_lost)
                    &&& told_to_record_loss(
                        made.device,
                        *context->Ok_0.device_lost,
                        handed_to(report),
                    )
                },
                Err(error) => context == Err::<Self, ContextError>(error),
            },
        opens_invariants none
    {
        match validate_metal_device(wgpu_device, made.metal_device) {
            Ok(()) => Ok(ExternalWgpuContext::with_report(made.device, made.queue, report)),
            Err(error) => Err(error),
        }
    }
}

/// The search opens adapters in order and settles on the first one that opens
/// the Metal device, whatever the later ones would have opened; it fails only
/// where none does.
pub proof fn search_finds_the_first_match(search: MetalSearch, opened: Seq<Option<usize>>)
    requires
        search.current < search.adapter_count,
        search.adapter_count == opened.len(),
    ensures
        match search_result(search, opened) {
            Ok(found) => {
                &&& found.metal_device == search.metal_device
                &&& search.current <= found.adapter < search.adapter_count
                &&& opened[found.adapter as int] == Some(search.metal_device)
                &&& forall|i: int|
                    search.current <= i < found.adapter ==> opened[i] != Some(search.metal_device)
            },
            Err(error) => {
                &&& error == ContextError::NoMetalAdapter { metal_device: search.metal_device }
                &&& forall|i: int|
                    search.current <= i < opened.len() ==> opened[i] != Some(search.metal_device)
            },
        },
    decreases search.adapter_count - search.current,
{
    if opened[search.current as int] != Some(search.metal_device) && search.current + 1
        < search.adapter_count {
        search_finds_the_first_match(
            MetalSearch { current: (search.current + 1) as usize, ..search },
            opened,
        );
    }
}

/// Whether sharing `metal_device` succeeds, from what the calls on the way
/// answered: whether the instance uses Metal, what its adapters opened, whether
/// the device was made, and which Metal device it uses.
pub open spec fn metal_outcome(
    metal_device: usize,
    backed_by_metal: bool,
    opened: Seq<Option<usize>>,
    created: Result<(wgpu::Device, wgpu::Queue), Vec<String>>,
    wgpu_device: Option<usize>,
) -> Result<(wgpu::Device, wgpu::Queue), ContextError> {
    match target_for(metal_device) {
        Err(error) => Err(error),
        Ok(target) => match search_start(target, backed_by_metal, opened.len() as usize) {
            Err(error) => Err(error),
            Ok(search) => match search_result(search, opened) {
                Err(error) => Err(error),
                Ok(found) => match created {
                    Err(causes) => Err(ContextError::MetalDeviceCreation { causes }),
                    Ok(pair) => match metal_identity(wgpu_device, found.metal_device) {
                        Err(error) => Err(error),
                        Ok(()) => Ok(pair),
                    },
                },
            },
        },
    }
}

/// Replays a search from what each adapter opened.
fn replay_search(start: MetalSearch, opened: &Vec<Option<usize>>) -> (found: Result<
    MetalMatch,
    ContextError,
>)
    requires
        start.current < start.adapter_count,
        start.adapter_count == opened.len(),
    ensures
        found == search_result(start, opened@),
{
    let mut search = start;
    loop
        invariant
            search.current < search.adapter_count,
            search.adapter_count == opened.len(),
            search_result(start, opened@) == search_result(search, opened@),
        decreases search.adapter_count - search.current,
    {
        match search.adapter_opened(opened[search.current])? {
            SearchStep::TryNext(next) => {
                search = next;
            },
            SearchStep::CreateDevice(found) => {
                return Ok(found);
            },
        }
    }
}

/// Replays the sharing of a Metal device from the answers that its calls gave:
/// whether the instance uses Metal, what its adapters opened, the device that was
/// made, and the Metal device that this one uses.
pub fn replay_metal_setup(
    metal_device: usize,
    backed_by_metal: bool,
    opened: &Vec<Option<usize>>,
    created: Result<(wgpu::Device, wgpu::Queue), Vec<String>>,
    wgpu_device: Option<usize>,
) -> (context: Result<ExternalWgpuContext, ContextError>)
    ensures
        match metal_outcome(metal_device, backed_by_metal, opened@, created, wgpu_device) {
            Ok((device, queue)) => {
                &&& context is Ok
                &&& *context->Ok_0.device == device
                &&& *context->Ok_0.queue == queue
                &&& !made_with(*context->Ok_0.device_lost)
                &&& told_to_record_loss(
                    device,
                    *context->Ok_0.device_lost,
                    handed_to(discard_report),
                )
            },
            Err(error) => context == Err::<ExternalWgpuContext, ContextError>(error),
        },
{
    let target = MetalTarget::new(metal_device)?;
    let search = target.instance_opened(backed_by_metal, opened.len())?;
    let found = replay_search(search, opened)?;
    let made = found.device_created(created)?;
    ExternalWgpuContext::from_metal_device(made, wgpu_device, discard_report)
}

/// A context is shared exactly when the Metal device is not null, the instance
/// uses Metal, some adapter opens that very device, the device is made, and what
/// was made uses that very device.
pub proof fn metal_context_needs_the_same_device(
    metal_device: usize,
    backed_by_metal: bool,
    opened: Seq<Option<usize>>,
    created: Result<(wgpu::Device, wgpu::Queue), Vec<String>>,
    wgpu_device: Option<usize>,
)
    requires
        opened.len() <= usize::MAX,
    ensures
        metal_outcome(metal_device, backed_by_metal, opened, created, wgpu_device) is Ok <==> {
            &&& metal_device != 0
            &&& backed_by_metal
            &&& opened.contains(Some(metal_device))
            &&& created is Ok
            &&& wgpu_device == Some(metal_device)
        },
        metal_outcome(metal_device, backed_by_metal, opened, created, wgpu_device) is Ok
            ==> metal_outcome(metal_device, backed_by_metal, opened, created, wgpu_device)->Ok_0
            == created->Ok_0,
{
    if opened.len() > 0 {
        search_finds_the_first_match(
            MetalSearch { metal_device, adapter_count: opened.len() as usize, current: 0 },
            opened,
        );
    }
}

/// A device is shared exactly if it uses the Metal device that it was made for. It
/// is shared as it is, with a flag that was made down and that the loss of this
/// device raises. Otherwise the error tells a device without Metal from one with
/// another Metal device, and names both.
pub proof fn only_the_right_metal_device_is_shared<R: Fn(String) + Send + 'static>(
    made: MetalDevice,
    wgpu_device: Option<usize>,
    report: R,
    context: Result<ExternalWgpuContext, ContextError>,
)
    requires
        call_ensures(
            ExternalWgpuContext::from_metal_device::<R>,
            (made, wgpu_device, report),
            context,
        ),
    ensures
        context is Ok <==> wgpu_device == Some(made.metal_device),
        context matches Ok(context) ==> {
            &&& *context.device == made.device
            &&& *context.queue == made.queue
            &&& !made_with(*context.device_lost)
            &&& told_to_record_loss(made.device, *context.device_lost, handed_to(report))
        },
        context matches Err(error) ==> match wgpu_device {
            None => error == ContextError::DeviceNotMetal,
            Some(address) => error == ContextError::MetalDeviceMismatch {
                wgpu_device: address,
                metal_device: made.metal_device,
            },
        },
{
}

/// The sharing of a Metal device ends with the first thing that is wrong, in the
/// order in which things are looked at, and with a context where nothing is.
pub proof fn a_metal_setup_ends_with_the_first_thing_wrong(
    metal_device: usize,
    backed_by_metal: bool,
    opened: Vec<Option<usize>>,
    created: Result<(wgpu::Device, wgpu::Queue), Vec<String>>,
    wgpu_device: Option<usize>,
    context: Result<ExternalWgpuContext, ContextError>,
)
    requires
        call_ensures(
            replay_metal_setup,
            (metal_device, backed_by_metal, &opened, created, wgpu_device),
            context,
        ),
    ensures
        if metal_device == 0 {
            context == Err::<ExternalWgpuContext, ContextError>(ContextError::NullMetalDevice)
        } else if !backed_by_metal {
            context == Err::<ExternalWgpuContext, ContextError>(ContextError::InstanceNotMetal)
        } else if !opened@.contains(Some(metal_device)) {
            context == Err::<ExternalWgpuContext, ContextError>(
                ContextError::NoMetalAdapter { metal_device },
            )
        } else if created is Err {
            context == Err::<ExternalWgpuContext, ContextError>(
                ContextError::MetalDeviceCreation { causes: created->Err_0 },
            )
        } else if wgpu_device is None {
            context == Err::<ExternalWgpuContext, ContextError>(ContextError::DeviceNotMetal)
        } else if wgpu_device != Some(metal_device) {
            context == Err::<ExternalWgpuContext, ContextError>(
                ContextError::MetalDeviceMismatch { wgpu_device: wgpu_device->0, metal_device },
            )
        } else {
            &&& context is Ok
            &&& *context->Ok_0.device == created->Ok_0.0
            &&& *context->Ok_0.queue == created->Ok_0.1
            &&& !made_with(*context->Ok_0.device_lost)
            &&& told_to_record_loss(
                created->Ok_0.0,
                *context->Ok_0.device_lost,
                handed_to(discard_report),
            )
        },
{
    assert(opened.len() == opened@.len());
    metal_context_needs_the_same_device(
        metal_device,
        backed_by_metal,
        opened@,
        created,
        wgpu_device,
    );
    if opened@.len() > 0 {
        search_finds_the_first_match(
            MetalSearch { metal_device, adapter_count: opened@.len() as usize, current: 0 },
            opened@,
        );
    }
}

/// The adapters are opened in order, one step at a time: an adapter that opens the
/// Metal device ends the search there, and any other leads to the next one, or to
/// an error behind the last.
pub proof fn a_search_takes_one_step_at_a_time(
    search: MetalSearch,
    opened: Option<usize>,
    step: Result<SearchStep, ContextError>,
)
    requires
        call_ensures(MetalSearch::adapter_opened, (search, opened), step),
    ensures
        match step {
            Ok(SearchStep::CreateDevice(found)) => {
                &&& opened == Some(search.metal_device)
                &&& found.metal_device == search.metal_device
                &&& found.adapter == search.current
            },
            Ok(SearchStep::TryNext(next)) => {
                &&& opened != Some(search.metal_device)
                &&& next.metal_device == search.metal_device
                &&& next.adapter_count == search.adapter_count
                &&& next.current == search.current + 1
                &&& next.current < next.adapter_count
            },
            Err(error) => {
                &&& opened != Some(search.metal_device)
                &&& search.current + 1 >= search.adapter_count
                &&& error == ContextError::NoMetalAdapter { metal_device: search.metal_device }
            },
        },
{
}

/// Every adapter is asked for a device with its own texture dimensions and buffer
/// offset alignments, and with the downlevel value of every other limit.
pub proof fn a_metal_adapter_is_asked_for_what_it_has(
    search: MetalSearch,
    adapter_limits: wgpu::Limits,
    request: DeviceRequest,
)
    requires
        call_ensures(MetalSearch::device_request, (&search, adapter_limits), request),
    ensures
        ({
            let limits = request.required_limits;
            &&& limits.max_texture_dimension_1d == adapter_limits.max_texture_dimension_1d
            &&& limits.max_texture_dimension_2d == adapter_limits.max_texture_dimension_2d
            &&& limits.max_texture_dimension_3d == adapter_limits.max_texture_dimension_3d
            &&& limits.min_uniform_buffer_offset_alignment
                == adapter_limits.min_uniform_buffer_offset_alignment
            &&& limits.min_storage_buffer_offset_alignment
                == adapter_limits.min_storage_buffer_offset_alignment
            &&& is_downlevel_otherwise(limits)
        }),
{
}

} // verus!
