use external_compositor::dx12::{
    replay_dx12_setup, validate_dx12_handles, AdapterFacts, AdapterRequest, Dx12Device,
    Dx12Handles,
};
use external_compositor::error::backend_name;
use external_compositor::external_context::discard_report;
use external_compositor::graphics::required_limits;
use external_compositor::{dx12_texture_resource_raw, ContextError, Dx12ExternalWgpuContext};
use std::sync::atomic::Ordering;

fn device() -> (wgpu::Device, wgpu::Queue) {
    wgpu::Device::noop(&wgpu::DeviceDescriptor::default())
}

fn facts(backend: wgpu::Backend) -> AdapterFacts {
    AdapterFacts {
        name: "Adapter".to_string(),
        backend,
        limits: wgpu::Limits::default(),
    }
}

const HANDLES: Dx12Handles = Dx12Handles {
    device: 0x1000,
    queue: 0x2000,
};

#[test]
fn a_fast_dx12_adapter_is_asked_for() {
    let request = AdapterRequest::dx12();
    assert_eq!(request.backend, wgpu::Backend::Dx12);
    assert_eq!(
        request.power_preference,
        wgpu::PowerPreference::HighPerformance
    );
    assert!(!request.force_fallback_adapter);

    assert_eq!(request.backends(), wgpu::Backends::DX12);
    let options = request.options();
    assert_eq!(
        options.power_preference,
        wgpu::PowerPreference::HighPerformance
    );
    assert!(!options.force_fallback_adapter);
    assert!(options.compatible_surface.is_none());
}

#[test]
fn a_missing_adapter_is_reported() {
    let error = AdapterRequest::dx12()
        .answered(Err("not found".to_string()))
        .err()
        .unwrap();
    assert_eq!(
        error.chain(),
        ["failed to request DX12 wgpu adapter: not found"]
    );
}

#[test]
fn an_adapter_of_another_backend_is_refused() {
    let error = AdapterRequest::dx12()
        .answered(Ok(facts(wgpu::Backend::Vulkan)))
        .err()
        .unwrap();
    assert_eq!(
        error.message(),
        "external compositor wgpu adapter is not DX12: Adapter (Vulkan)"
    );
}

#[test]
fn every_backend_has_the_name_that_wgpu_gives_it() {
    for backend in [
        wgpu::Backend::Noop,
        wgpu::Backend::Vulkan,
        wgpu::Backend::Metal,
        wgpu::Backend::Dx12,
        wgpu::Backend::Gl,
        wgpu::Backend::BrowserWebGpu,
    ] {
        assert_eq!(backend_name(backend), format!("{backend:?}"));
    }
}

#[test]
fn a_dx12_adapter_is_asked_for_a_device() {
    let request = AdapterRequest::dx12()
        .answered(Ok(facts(wgpu::Backend::Dx12)))
        .ok()
        .unwrap();
    assert_eq!(request.label, "gpui_windows_external_compositor_device");
    assert_eq!(
        request.required_limits,
        required_limits(wgpu::Limits::default())
    );
}

#[test]
fn a_refused_device_is_reported_with_its_causes() {
    let error = Dx12Device::created(Err(vec!["limits".to_string()])).err().unwrap();
    assert_eq!(
        error.chain(),
        [
            "failed to create DX12 wgpu device for external compositing",
            "limits"
        ]
    );
}

#[test]
fn a_device_without_dx12_is_refused() {
    let made = Dx12Device::created(Ok(device())).ok().unwrap();
    let error = made.identified(None).err().unwrap();
    assert_eq!(
        error.message(),
        "external compositor wgpu device is not backed by DX12"
    );
}

#[test]
fn the_identity_of_device_and_queue_is_checked() {
    assert!(validate_dx12_handles(Some(HANDLES), 0x1000, 0x2000).is_ok());
    assert!(matches!(
        validate_dx12_handles(None, 0x1000, 0x2000).unwrap_err(),
        ContextError::DeviceNotDx12
    ));
    assert_eq!(
        validate_dx12_handles(Some(HANDLES), 0x1001, 0x2001)
            .unwrap_err()
            .message(),
        "external compositor DX12 device identity mismatch: wgpu=0x1000, expected=0x1001"
    );
    assert_eq!(
        validate_dx12_handles(Some(HANDLES), 0x1000, 0x2001)
            .unwrap_err()
            .message(),
        "external compositor DX12 queue identity mismatch: wgpu=0x2000, expected=0x2001"
    );
}

#[test]
fn a_validated_device_becomes_a_context() {
    let (device, queue) = device();
    let (same_device, same_queue) = (device.clone(), queue.clone());
    let made = Dx12Device::created(Ok((device, queue)))
        .ok()
        .unwrap()
        .identified(Some(HANDLES))
        .ok()
        .unwrap();
    let context = Dx12ExternalWgpuContext::new(made, Some(HANDLES), discard_report).ok().unwrap();
    assert_eq!(*context.context.device, same_device);
    assert_eq!(*context.context.queue, same_queue);
    assert_eq!(context.d3d12_device_raw, 0x1000);
    assert_eq!(context.d3d12_queue_raw, 0x2000);
    assert!(!context.context.device_lost.load(Ordering::Relaxed));
}

#[test]
fn a_device_whose_queue_changed_is_not_shared() {
    let made = Dx12Device::created(Ok(device()))
        .ok()
        .unwrap()
        .identified(Some(HANDLES))
        .ok()
        .unwrap();
    let other = Dx12Handles {
        queue: 0x3000,
        ..HANDLES
    };
    let error = Dx12ExternalWgpuContext::new(made, Some(other), discard_report).err().unwrap();
    assert!(matches!(
        error,
        ContextError::Dx12QueueMismatch {
            wgpu_queue: 0x3000,
            expected: 0x2000
        }
    ));
}

#[test]
fn a_dx12_setup_needs_dx12_throughout() {
    let dx12 = || Ok(facts(wgpu::Backend::Dx12));
    let context = replay_dx12_setup(dx12(), Ok(device()), Some(HANDLES), Some(HANDLES))
        .ok()
        .unwrap();
    assert_eq!(context.d3d12_device_raw, HANDLES.device);
    assert_eq!(context.d3d12_queue_raw, HANDLES.queue);

    let metal = Ok(facts(wgpu::Backend::Metal));
    let error = replay_dx12_setup(metal, Ok(device()), Some(HANDLES), Some(HANDLES));
    assert!(matches!(
        error.err().unwrap(),
        ContextError::AdapterNotDx12 {
            backend: wgpu::Backend::Metal,
            ..
        }
    ));
    let error = replay_dx12_setup(dx12(), Err(Vec::new()), Some(HANDLES), Some(HANDLES));
    assert!(matches!(
        error.err().unwrap(),
        ContextError::DeviceRequest { .. }
    ));
    let error = replay_dx12_setup(dx12(), Ok(device()), None, Some(HANDLES));
    assert!(matches!(error.err().unwrap(), ContextError::DeviceNotDx12));
    let error = replay_dx12_setup(dx12(), Ok(device()), Some(HANDLES), None);
    assert!(matches!(error.err().unwrap(), ContextError::DeviceNotDx12));
}

#[test]
fn only_dx12_textures_have_a_resource() {
    assert_eq!(dx12_texture_resource_raw(Some(0x44)).unwrap(), 0x44);
    assert_eq!(
        dx12_texture_resource_raw(None).unwrap_err().message(),
        "external compositor returned a non-DX12 wgpu texture on Windows"
    );
}
