//! The device and queue that the compositor and its host share.

use crate::error::ContextError;
use std::sync::atomic::{AtomicBool, Ordering};
use std::sync::Arc;
use vstd::prelude::*;
use vstd::string::*;

verus! {

/// `wgpu::Device`, a handle to a device of the driver.
#[verifier::external_type_specification]
#[verifier::external_body]
pub struct ExDevice(wgpu::Device);

/// `wgpu::Queue`, a handle to the queue of a device.
#[verifier::external_type_specification]
#[verifier::external_body]
pub struct ExQueue(wgpu::Queue);

/// `wgpu::DeviceLostReason`, a plain enumeration.
#[verifier::external_type_specification]
pub struct ExDeviceLostReason(wgpu::DeviceLostReason);

/// Why a device can be lost, as far as recording the loss is concerned.
pub trait Loss: Copy {
    /// Whether the loss is to be flagged.
    spec fn unexpected(self) -> bool;

    /// The name of the reason, as reports spell it.
    spec fn name(self) -> Seq<char>;

    /// Whether the loss is to be flagged.
    fn is_unexpected(self) -> (unexpected: bool)
        ensures
            unexpected == self.unexpected(),
    ;

    /// The name of the reason.
    fn spelled(self) -> (name: &'static str)
        ensures
            name@ == self.name(),
    ;
}

/// A flag that an unexpected loss of kind `L` raises, and nothing else changes.
///
/// Who knows a flag only by this trait, and a loss only by [`Loss`], can neither
/// lower the flag nor raise it without such a loss at hand.
pub trait LossFlag<L: Loss> {
    /// The atomic behind the flag.
    spec fn atomic(&self) -> AtomicBool;

    /// Raises the flag because of `loss`, and does nothing else to it.
    fn raise(&self, loss: L)
        requires
            loss.unexpected(),
        ensures
            was_stored(self.atomic(), true),
        opens_invariants [ storing(true) ]
    ;
}

/// Whether a device lost for `reason` is to be flagged as lost.
pub open spec fn is_unexpected_loss<L: Loss>(reason: L) -> bool {
    reason.unexpected()
}

/// Whether the flag is up after losses for these reasons, in order, when it was
/// up or down before: a loss raises it or leaves it as it is.
pub open spec fn lost_after<L: Loss>(lost: bool, reasons: Seq<L>) -> bool
    decreases reasons.len(),
{
    if reasons.len() == 0 {
        lost
    } else {
        lost_after(lost, reasons.drop_last()) || is_unexpected_loss(reasons.last())
    }
}

impl Loss for wgpu::DeviceLostReason {
    /// A device that its owner destroyed on purpose is not to be flagged.
    open spec fn unexpected(self) -> bool {
        !(self is Destroyed)
    }

    open spec fn name(self) -> Seq<char> {
        match self {
            wgpu::DeviceLostReason::Unknown => "Unknown"@,
            wgpu::DeviceLostReason::Destroyed => "Destroyed"@,
        }
    }

    fn is_unexpected(self) -> (unexpected: bool) {
        match self {
            wgpu::DeviceLostReason::Destroyed => false,
            _ => true,
        }
    }

    fn spelled(self) -> (name: &'static str) {
        match self {
            wgpu::DeviceLostReason::Unknown => "Unknown",
            wgpu::DeviceLostReason::Destroyed => "Destroyed",
        }
    }
}

impl<L: Loss> LossFlag<L> for AtomicBool {
    open spec fn atomic(&self) -> AtomicBool {
        *self
    }

    fn raise(&self, _loss: L) {
        let _ = store_flag(self, true);
    }
}

impl<L: Loss> LossFlag<L> for Arc<AtomicBool> {
    open spec fn atomic(&self) -> AtomicBool {
        **self
    }

    fn raise(&self, _loss: L) {
        let _ = store_flag(self, true);
    }
}

/// Whether a device lost for `reason` is to be flagged as lost.
pub fn raises_flag(reason: wgpu::DeviceLostReason) -> (raises: bool)
    ensures
        raises == is_unexpected_loss(reason),
{
    reason.is_unexpected()
}

/// What `flag` was made holding.
pub uninterp spec fn made_with(flag: AtomicBool) -> bool;

/// Whether `value` was stored in `flag`, at some time.
pub uninterp spec fn was_stored(flag: AtomicBool, value: bool) -> bool;

/// Whether a flag is up that is only ever raised: it was made so, or raised since.
pub open spec fn is_marked(flag: AtomicBool) -> bool {
    made_with(flag) || was_stored(flag, true)
}

/// `AtomicBool::new` makes an atomic that holds `value` to begin with.
#[verifier::external_body]
fn new_flag(value: bool) -> (flag: AtomicBool)
    ensures
        made_with(flag) == value,
    opens_invariants none
{
    AtomicBool::new(value)
}

/// What storing `value` in a flag counts as opening.
///
/// A function that opens no invariant can store nothing, and one that opens
/// `storing(true)` alone can raise flags and do nothing else to them: any other
/// access to an atomic may open every invariant.
pub open spec fn storing(value: bool) -> int {
    if value {
        1
    } else {
        0
    }
}

/// `AtomicBool::store` stores `value` in `flag`, which is handed back. That is
/// claimed as something that happened; another value may be stored any time. The
/// call counts as opening `storing(value)`.
#[verifier::external_body]
fn store_flag(flag: &AtomicBool, value: bool) -> (stored: &AtomicBool)
    ensures
        stored == flag,
        was_stored(*stored, value),
    opens_invariants [ storing(value) ]
{
    flag.store(value, Ordering::Relaxed);
    flag
}

/// The name of a reason, as reports spell it.
pub open spec fn reason_chars<L: Loss>(reason: L) -> Seq<char> {
    reason.name()
}

/// What is reported of a loss.
pub open spec fn loss_chars<L: Loss>(reason: L, message: Seq<char>) -> Seq<char> {
    "external compositor wgpu device lost: reason="@ + reason_chars(reason) + ", message="@
        + message
}

/// What to report of a loss.
pub fn loss_report<L: Loss>(reason: L, message: &str) -> (report: String)
    ensures
        report@ == loss_chars(reason, message@),
{
    "external compositor wgpu device lost: reason=".to_owned().concat(reason.spelled()).concat(
        ", message=",
    ).concat(message)
}

/// Takes a report and does nothing with it.
pub fn discard_report(_report: String) {
}

/// Reports a loss, raises `device_lost` unless the device was destroyed on
/// purpose, and says whether it did.
///
/// The flag is known only as something that such a loss raises. So nothing is
/// stored where `reason` is not unexpected, and the flag is never lowered.
pub fn record_device_loss<F: LossFlag<L>, R: Fn(String), L: Loss>(
    device_lost: &F,
    report: &R,
    reason: L,
    message: &str,
) -> (raised: bool)
    requires
        forall|text: String| call_requires(*report, (text,)),
    ensures
        raised == is_unexpected_loss(reason),
        raised ==> was_stored(device_lost.atomic(), true),
        exists|text: String|
            text@ == loss_chars(reason, message@) && #[trigger] call_ensures(*report, (text,), ()),
{
    let text = loss_report(reason, message);
    let ghost reported = text;
    (*report)(text);
    assert(call_ensures(*report, (reported,), ()));
    let raised = reason.is_unexpected();
    if raised {
        device_lost.raise(reason);
    }
    raised
}

/// Replays losses for these reasons, in order, on `device_lost`, and says whether
/// one of them raised it.
pub fn replay_losses<F: LossFlag<L>, L: Loss>(device_lost: &F, reasons: &Vec<L>) -> (raised: bool)
    ensures
        raised == lost_after(false, reasons@),
        raised ==> was_stored(device_lost.atomic(), true),
        lost_after(made_with(device_lost.atomic()), reasons@) ==> is_marked(device_lost.atomic()),
{
    let mut raised = false;
    for i in 0..reasons.len()
        invariant
            raised == lost_after(false, reasons@.take(i as int)),
            raised ==> was_stored(device_lost.atomic(), true),
    {
        assert(reasons@.take(i + 1).drop_last() =~= reasons@.take(i as int));
        raised = record_device_loss(device_lost, &discard_report, reasons[i], "") || raised;
    }
    assert(reasons@.take(reasons.len() as int) =~= reasons@);
    proof {
        lost_exactly_after_an_unexpected_loss(false, reasons@);
        lost_exactly_after_an_unexpected_loss(made_with(device_lost.atomic()), reasons@);
    }
    raised
}

/// After any number of losses the device counts as lost exactly if it did before
/// or one of the losses was unexpected. So destroying it never marks it lost, and
/// once it is lost it stays so, whatever follows.
pub proof fn lost_exactly_after_an_unexpected_loss<L: Loss>(lost: bool, reasons: Seq<L>)
    ensures
        lost_after(lost, reasons) <==> lost || exists|i: int|
            0 <= i < reasons.len() && is_unexpected_loss(#[trigger] reasons[i]),
    decreases reasons.len(),
{
    if reasons.len() > 0 {
        let before = reasons.drop_last();
        lost_exactly_after_an_unexpected_loss(lost, before);
        if exists|i: int| 0 <= i < before.len() && is_unexpected_loss(#[trigger] before[i]) {
            let i = choose|i: int|
                0 <= i < before.len() && is_unexpected_loss(#[trigger] before[i]);
            assert(is_unexpected_loss(reasons[i]));
        }
        if exists|i: int| 0 <= i < reasons.len() && is_unexpected_loss(#[trigger] reasons[i]) {
            let i = choose|i: int|
                0 <= i < reasons.len() && is_unexpected_loss(#[trigger] reasons[i]);
            assert(i < before.len() ==> is_unexpected_loss(before[i]));
        }
    }
}

/// What becomes of a text that `report` is called with.
pub open spec fn handed_to<R: Fn(String)>(report: R) -> spec_fn(String) -> bool {
    |text: String| call_ensures(report, (text,), ())
}

/// Whether `device` was told, at some time, to record its loss in `device_lost`
/// and to have `reported` hold of the text of the loss. Being told something else
/// later does not undo that.
pub uninterp spec fn told_to_record_loss(
    device: wgpu::Device,
    device_lost: AtomicBool,
    reported: spec_fn(String) -> bool,
) -> bool;

/// `wgpu::Device::set_device_lost_callback`: `device` is told to hand its loss to
/// `report` and to record it in `device_lost`. That is claimed as something that
/// happened: setting another callback, through any handle to the device, puts it
/// in the place of this one. The device, its queue and the flag are handed back
/// to be shared; who gave the device away has no handle left to tell it something
/// else by.
#[verifier::external_body]
fn watch_device_loss<R: Fn(String) + Send + 'static>(
    device: wgpu::Device,
    queue: wgpu::Queue,
    device_lost: AtomicBool,
    report: R,
) -> (watched: (Arc<wgpu::Device>, Arc<wgpu::Queue>, Arc<AtomicBool>))
    requires
        forall|text: String| call_requires(report, (text,)),
    ensures
        *watched.0 == device,
        *watched.1 == queue,
        *watched.2 == device_lost,
        told_to_record_loss(device, *watched.2, handed_to(report)),
    opens_invariants none
{
    let device_lost = Arc::new(device_lost);
    let recorded = Arc::clone(&device_lost);
    device.set_device_lost_callback(
        move |reason, message|
            {
                record_device_loss(&recorded, &report, reason, &message);
            },
    );
    (Arc::new(device), Arc::new(queue), device_lost)
}

/// The host renderer's own `wgpu` device, its queue and its device-lost flag.
pub struct WgpuContext {
    pub device: Arc<wgpu::Device>,
    pub queue: Arc<wgpu::Queue>,
    pub device_lost: Arc<AtomicBool>,
}

impl WgpuContext {
    /// The flag that is raised when the device is lost, shared with this context.
    pub fn device_lost_flag(&self) -> (flag: Arc<AtomicBool>)
        ensures
            flag == self.device_lost,
        opens_invariants none
    {
        Arc::clone(&self.device_lost)
    }
}

/// A device and queue shared with an external compositor, and the flag that is
/// raised when the device is lost.
pub struct ExternalWgpuContext {
    pub device: Arc<wgpu::Device>,
    pub queue: Arc<wgpu::Queue>,
    pub device_lost: Arc<AtomicBool>,
}

impl Clone for ExternalWgpuContext {
    /// Another handle to the same device, queue and flag.
    fn clone(&self) -> (context: Self)
        ensures
            context == *self,
    {
        ExternalWgpuContext {
            device: Arc::clone(&self.device),
            queue: Arc::clone(&self.queue),
            device_lost: Arc::clone(&self.device_lost),
        }
    }
}

impl ExternalWgpuContext {
    /// Shares `device` and `queue`. The flag is new and not raised; `device` is
    /// told to raise it when it is lost other than by being destroyed. Nothing is
    /// reported; see [`ExternalWgpuContext::with_report`].
    pub fn new(device: wgpu::Device, queue: wgpu::Queue) -> (context: Self)
        ensures
            *context.device == device,
            *context.queue == queue,
            !made_with(*context.device_lost),
            told_to_record_loss(device, *context.device_lost, handed_to(discard_report)),
        opens_invariants none
    {
        ExternalWgpuContext::with_report(device, queue, discard_report)
    }

    /// Shares `device` and `queue` as [`ExternalWgpuContext::new`] does. The text
    /// of a loss, whatever its reason, is handed to `report`.
    ///
    /// No invariant is opened, so nothing is reported here and nothing is stored
    /// in any flag: on return the flag is down, unless the device was lost since.
    /// The device is told once, so what it was told here is in force.
    pub fn with_report<R: Fn(String) + Send + 'static>(
        device: wgpu::Device,
        queue: wgpu::Queue,
        report: R,
    ) -> (context: Self)
        requires
            forall|text: String| call_requires(report, (text,)),
        ensures
            *context.device == device,
            *context.queue == queue,
            !made_with(*context.device_lost),
            told_to_record_loss(device, *context.device_lost, handed_to(report)),
        opens_invariants none
    {
        let (device, queue, device_lost) = watch_device_loss(
            device,
            queue,
            new_flag(false),
            report,
        );
        ExternalWgpuContext { device, queue, device_lost }
    }

    /// Shares the device, the queue and the flag of the host renderer's context.
    pub fn from_wgpu_context(context: &WgpuContext) -> (shared: Self)
        ensures
            shared.device == context.device,
            shared.queue == context.queue,
            shared.device_lost == context.device_lost,
        opens_invariants none
    {
        ExternalWgpuContext {
            device: Arc::clone(&context.device),
            queue: Arc::clone(&context.queue),
            device_lost: context.device_lost_flag(),
        }
    }

    /// A context cannot be made from a D3D12 device yet, whichever it is.
    pub fn from_d3d12_device(_d3d12_device: usize) -> (context: Result<Self, ContextError>)
        ensures
            context == Err::<Self, ContextError>(ContextError::D3d12DeviceUnsupported),
    {
        Err(ContextError::D3d12DeviceUnsupported)
    }
}

/// Raising a flag never counts as lowering it, nor the other way round: what may
/// do the one cannot do the other on that account.
pub proof fn raising_is_not_lowering(value: bool, other: bool)
    ensures
        storing(value) == storing(other) <==> value == other,
{
}

/// A loss raises the flag that it is recorded in exactly if the device was not
/// destroyed on purpose, whatever the message says, and is reported with its reason
/// and its message either way.
pub proof fn a_loss_is_recorded_and_reported<R: Fn(String)>(
    device_lost: &AtomicBool,
    report: &R,
    reason: wgpu::DeviceLostReason,
    message: &str,
    raised: bool,
)
    requires
        call_ensures(
            record_device_loss::<AtomicBool, R, wgpu::DeviceLostReason>,
            (device_lost, report, reason, message),
            raised,
        ),
    ensures
        raised <==> reason != wgpu::DeviceLostReason::Destroyed,
        reason != wgpu::DeviceLostReason::Destroyed ==> is_marked(*device_lost),
        reason == wgpu::DeviceLostReason::Unknown ==> exists|text: String|
            text@ == "external compositor wgpu device lost: reason="@ + "Unknown"@ + ", message="@
                + message@ && #[trigger] call_ensures(*report, (text,), ()),
        reason == wgpu::DeviceLostReason::Destroyed ==> exists|text: String|
            text@ == "external compositor wgpu device lost: reason="@ + "Destroyed"@
                + ", message="@ + message@ && #[trigger] call_ensures(*report, (text,), ()),
{
}

/// A new context is not lost, and losses mark it lost exactly if one of them is
/// unexpected: the flag was made down, and is up after the losses if and only if
/// the device was lost other than by being destroyed.
pub proof fn a_context_is_lost_after_an_unexpected_loss<R: Fn(String) + Send + 'static>(
    device: wgpu::Device,
    queue: wgpu::Queue,
    report: R,
    context: ExternalWgpuContext,
    reasons: Vec<wgpu::DeviceLostReason>,
    raised: bool,
)
    requires
        call_ensures(ExternalWgpuContext::with_report::<R>, (device, queue, report), context),
        call_ensures(
            replay_losses::<AtomicBool, wgpu::DeviceLostReason>,
            (&*context.device_lost, &reasons),
            raised,
        ),
    ensures
        *context.device == device,
        *context.queue == queue,
        told_to_record_loss(device, *context.device_lost, handed_to(report)),
        forall|text: String|
            #[trigger] handed_to(report)(text) <==> call_ensures(report, (text,), ()),
        !made_with(*context.device_lost),
        raised <==> exists|i: int|
            0 <= i < reasons@.len() && #[trigger] reasons@[i] != wgpu::DeviceLostReason::Destroyed,
        raised ==> is_marked(*context.device_lost),
{
    lost_exactly_after_an_unexpected_loss(false, reasons@);
    if raised {
        let i = choose|i: int|
            0 <= i < reasons@.len() && is_unexpected_loss(#[trigger] reasons@[i]);
        assert(reasons@[i] != wgpu::DeviceLostReason::Destroyed);
    }
    if exists|i: int|
        0 <= i < reasons@.len() && #[trigger] reasons@[i] != wgpu::DeviceLostReason::Destroyed {
        let i = choose|i: int|
            0 <= i < reasons@.len() && #[trigger] reasons@[i] != wgpu::DeviceLostReason::Destroyed;
        assert(is_unexpected_loss(reasons@[i]));
    }
}

/// A context that shares the host's, and every clone of it, is lost exactly when
/// the host's is: all of them have the one device, queue and flag.
pub proof fn shared_contexts_have_one_flag(
    host: &WgpuContext,
    shared: ExternalWgpuContext,
    clone: ExternalWgpuContext,
)
    requires
        call_ensures(ExternalWgpuContext::from_wgpu_context, (host,), shared),
        call_ensures(ExternalWgpuContext::clone, (&shared,), clone),
    ensures
        shared.device_lost == host.device_lost,
        clone.device_lost == host.device_lost,
        shared.device == host.device,
        clone.device == host.device,
        shared.queue == host.queue,
        clone.queue == host.queue,
{
}

} // verus!
