use external_compositor::external_context::{
    discard_report, loss_report, raises_flag, record_device_loss, replay_losses,
};
use external_compositor::{ContextError, ExternalWgpuContext, WgpuContext};
use std::sync::atomic::{AtomicBool, Ordering};
use std::sync::{Arc, Mutex};

fn device() -> (wgpu::Device, wgpu::Queue) {
    wgpu::Device::noop(&wgpu::DeviceDescriptor::default())
}

#[test]
fn an_unexpected_loss_raises_the_flag() {
    let flag = AtomicBool::new(false);
    assert!(record_device_loss(
        &flag,
        &discard_report,
        wgpu::DeviceLostReason::Unknown,
        "message"
    ));
    assert!(flag.load(Ordering::Relaxed));
}

#[test]
fn a_destroyed_device_does_not_raise_the_flag() {
    let flag = AtomicBool::new(false);
    assert!(!record_device_loss(
        &flag,
        &discard_report,
        wgpu::DeviceLostReason::Destroyed,
        "message"
    ));
    assert!(!flag.load(Ordering::Relaxed));
}

#[test]
fn a_raised_flag_stays_raised() {
    let flag = AtomicBool::new(true);
    assert!(!record_device_loss(
        &flag,
        &discard_report,
        wgpu::DeviceLostReason::Destroyed,
        "message"
    ));
    assert!(flag.load(Ordering::Relaxed));
}

#[test]
fn only_unexpected_losses_raise_the_flag() {
    assert!(raises_flag(wgpu::DeviceLostReason::Unknown));
    assert!(!raises_flag(wgpu::DeviceLostReason::Destroyed));
}

#[test]
fn one_unexpected_loss_among_many_is_enough_and_stays() {
    let (unknown, destroyed) = (
        wgpu::DeviceLostReason::Unknown,
        wgpu::DeviceLostReason::Destroyed,
    );
    let replayed = |lost: bool, reasons: Vec<wgpu::DeviceLostReason>| {
        let flag = AtomicBool::new(lost);
        let raised = replay_losses(&flag, &reasons);
        (raised, flag.load(Ordering::Relaxed))
    };
    assert_eq!(replayed(false, vec![]), (false, false));
    assert_eq!(replayed(true, vec![]), (false, true));
    assert_eq!(replayed(false, vec![destroyed, destroyed]), (false, false));
    assert_eq!(replayed(true, vec![destroyed]), (false, true));
    assert_eq!(
        replayed(false, vec![destroyed, unknown, destroyed]),
        (true, true)
    );
}

#[test]
fn a_loss_is_reported_in_words() {
    assert_eq!(
        loss_report(wgpu::DeviceLostReason::Unknown, "driver reset"),
        "external compositor wgpu device lost: reason=Unknown, message=driver reset"
    );
    assert_eq!(
        loss_report(wgpu::DeviceLostReason::Destroyed, ""),
        "external compositor wgpu device lost: reason=Destroyed, message="
    );
}

#[test]
fn recording_a_loss_reports_it() {
    let reports = Mutex::new(Vec::new());
    let flag = AtomicBool::new(false);
    record_device_loss(
        &flag,
        &|text: String| reports.lock().unwrap().push(text),
        wgpu::DeviceLostReason::Unknown,
        "gone",
    );
    assert_eq!(
        *reports.lock().unwrap(),
        ["external compositor wgpu device lost: reason=Unknown, message=gone"]
    );
}

#[test]
fn destroying_the_device_of_a_context_is_reported() {
    let (device, queue) = device();
    let reports = Arc::new(Mutex::new(Vec::new()));
    let reported = Arc::clone(&reports);
    let context = ExternalWgpuContext::with_report(device, queue, move |text: String| {
        reported.lock().unwrap().push(text)
    });
    context.device.destroy();
    let _ = context.device.poll(wgpu::PollType::Poll);
    let reports = reports.lock().unwrap();
    assert_eq!(reports.len(), 1);
    assert!(reports[0]
        .starts_with("external compositor wgpu device lost: reason=Destroyed, message="));
    assert!(!context.device_lost.load(Ordering::Relaxed));
}

#[test]
fn two_contexts_have_two_flags() {
    let (first_device, first_queue) = device();
    let (second_device, second_queue) = device();
    let first = ExternalWgpuContext::new(first_device, first_queue);
    let second = ExternalWgpuContext::new(second_device, second_queue);
    assert!(!Arc::ptr_eq(&first.device_lost, &second.device_lost));
    assert!(replay_losses(
        &first.device_lost,
        &vec![wgpu::DeviceLostReason::Unknown]
    ));
    assert!(first.device_lost.load(Ordering::Relaxed));
    assert!(!second.device_lost.load(Ordering::Relaxed));
}

#[test]
fn a_new_context_shares_device_and_queue_and_is_not_lost() {
    let (device, queue) = device();
    let (same_device, same_queue) = (device.clone(), queue.clone());
    let context = ExternalWgpuContext::new(device, queue);
    assert_eq!(*context.device, same_device);
    assert_eq!(*context.queue, same_queue);
    assert!(!context.device_lost.load(Ordering::Relaxed));
}

#[test]
fn the_device_holds_on_to_the_flag_of_a_new_context() {
    let (device, queue) = device();
    let context = ExternalWgpuContext::new(device, queue);
    assert_eq!(Arc::strong_count(&context.device_lost), 2);
}

#[test]
fn destroying_the_device_of_a_context_does_not_mark_it_lost() {
    let (device, queue) = device();
    let context = ExternalWgpuContext::new(device, queue);
    context.device.destroy();
    let _ = context.device.poll(wgpu::PollType::Poll);
    assert!(!context.device_lost.load(Ordering::Relaxed));
}

#[test]
fn a_context_of_the_host_is_shared_as_it_is() {
    let (device, queue) = device();
    let host = WgpuContext {
        device: Arc::new(device),
        queue: Arc::new(queue),
        device_lost: Arc::new(AtomicBool::new(false)),
    };
    let context = ExternalWgpuContext::from_wgpu_context(&host);
    assert!(Arc::ptr_eq(&context.device, &host.device));
    assert!(Arc::ptr_eq(&context.queue, &host.queue));
    assert!(Arc::ptr_eq(&context.device_lost, &host.device_lost_flag()));
    host.device_lost.store(true, Ordering::Relaxed);
    assert!(context.device_lost.load(Ordering::Relaxed));
}

#[test]
fn clones_of_a_context_share_everything() {
    let (device, queue) = device();
    let context = ExternalWgpuContext::new(device, queue);
    let clone = context.clone();
    assert!(Arc::ptr_eq(&context.device, &clone.device));
    assert!(Arc::ptr_eq(&context.queue, &clone.queue));
    assert!(Arc::ptr_eq(&context.device_lost, &clone.device_lost));
}

#[test]
fn no_context_comes_from_a_d3d12_device() {
    let error = ExternalWgpuContext::from_d3d12_device(0x1000).err().unwrap();
    assert!(matches!(error, ContextError::D3d12DeviceUnsupported));
    assert_eq!(
        error.message(),
        "creating an external wgpu context from a D3D12 device is not implemented yet"
    );
}
