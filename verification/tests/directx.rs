use external_compositor::directx_devices::{
    check_com_interface, check_com_pointer, check_debug_layer_available, replay_directx_setup,
    validate_d3d11_device_features, DeviceCreation, DirectXAnswers, DirectXSetup, FeatureLevel,
};
use external_compositor::directx_error::{D3d11On12Error, DirectXError};
use external_compositor::dx12::{replay_dx12_setup, AdapterFacts, Dx12Handles};
use external_compositor::{ContextError, Dx12ExternalWgpuContext, ExternalWgpuContext};
use std::sync::Arc;

fn dx12(device: usize, queue: usize) -> Dx12ExternalWgpuContext {
    let (wgpu_device, wgpu_queue) = wgpu::Device::noop(&wgpu::DeviceDescriptor::default());
    Dx12ExternalWgpuContext {
        context: ExternalWgpuContext::new(wgpu_device, wgpu_queue),
        d3d12_device_raw: device,
        d3d12_queue_raw: queue,
    }
}

fn failed() -> Result<(), Vec<String>> {
    Err(vec!["cause".to_string()])
}

fn answers() -> DirectXAnswers {
    DirectXAnswers {
        factory: Ok(()),
        dx12: Ok(dx12(0x10, 0x20)),
        device_borrowed: true,
        queue_borrowed: true,
        adapter: Ok(()),
        queue_cast: Ok(()),
        call: Ok(()),
        device_given: true,
        features: Ok(1),
        context_given: true,
        device_cast: Ok(()),
    }
}

fn error_of(answers: DirectXAnswers) -> Vec<String> {
    replay_directx_setup(false, false, answers, FeatureLevel::Direct3D11p0)
        .err()
        .unwrap()
        .chain()
}

#[test]
fn the_debug_layer_needs_a_debug_build_and_its_interface() {
    assert!(check_debug_layer_available(true, true));
    assert!(!check_debug_layer_available(true, false));
    assert!(!check_debug_layer_available(false, true));
    assert!(!check_debug_layer_available(false, false));
}

#[test]
fn the_factory_reports_to_the_debug_layer_where_it_is_available() {
    assert_eq!(DirectXSetup::new(true, true).factory_flags(), 1);
    assert_eq!(DirectXSetup::new(true, false).factory_flags(), 0);
    assert_eq!(DirectXSetup::new(false, true).factory_flags(), 0);
}

#[test]
fn the_device_is_made_for_bgra_and_the_debug_layer() {
    let with = DeviceCreation {
        debug_layer_available: true,
        dx12: dx12(1, 2),
    };
    let without = DeviceCreation {
        debug_layer_available: false,
        dx12: dx12(1, 2),
    };
    assert_eq!(with.device_flags(), 0x22);
    assert_eq!(without.device_flags(), 0x20);
    assert_eq!(with.feature_levels(), [0xb100, 0xb000, 0xa100]);
    assert_eq!(with.d3d12_device(), 1);
    assert_eq!(with.command_queues(), [2]);
    assert_eq!(with.node_mask(), 0);
}

#[test]
fn the_debug_layer_is_carried_through_to_the_device() {
    let stage = DirectXSetup::new(true, true)
        .factory_created(Ok(()))
        .ok()
        .unwrap()
        .dx12_created(Ok(dx12(0x10, 0x20)))
        .ok()
        .unwrap()
        .device_borrowed(true)
        .ok()
        .unwrap()
        .queue_borrowed(true)
        .ok()
        .unwrap()
        .adapter_found(Ok(()))
        .ok()
        .unwrap()
        .queue_cast(Ok(()))
        .ok()
        .unwrap();
    assert_eq!(stage.device_flags(), 0x22);
    assert_eq!(stage.dx12.d3d12_device_raw, 0x10);
}

#[test]
fn only_offered_feature_levels_are_known() {
    assert_eq!(
        FeatureLevel::from_number(0xb100),
        Some(FeatureLevel::Direct3D11p1)
    );
    assert_eq!(
        FeatureLevel::from_number(0xb000),
        Some(FeatureLevel::Direct3D11p0)
    );
    assert_eq!(
        FeatureLevel::from_number(0xa100),
        Some(FeatureLevel::Direct3D10p1)
    );
    assert_eq!(FeatureLevel::from_number(0xa000), None);
    assert_eq!(FeatureLevel::from_number(0xc000), None);
    assert_eq!(FeatureLevel::from_number(0), None);
}

#[test]
fn feature_levels_are_reported() {
    assert_eq!(
        FeatureLevel::Direct3D11p1.report(),
        "Created D3D11On12 device with Direct3D 11.1 feature level."
    );
    assert_eq!(
        FeatureLevel::Direct3D11p0.report(),
        "Created D3D11On12 device with Direct3D 11.0 feature level."
    );
    assert_eq!(
        FeatureLevel::Direct3D10p1.report(),
        "Created D3D11On12 device with Direct3D 10.1 feature level."
    );
}

#[test]
fn com_objects_are_checked_before_and_after_borrowing() {
    assert_eq!(check_com_pointer(5, "Borrowing").ok(), Some(5));
    assert_eq!(
        check_com_pointer(0, "Borrowing").unwrap_err().message(),
        "Borrowing: null COM pointer"
    );
    assert!(check_com_interface(true, "Borrowing").is_ok());
    assert_eq!(
        check_com_interface(false, "Borrowing").unwrap_err().message(),
        "Borrowing"
    );
}

#[test]
fn structured_buffers_are_required() {
    assert!(validate_d3d11_device_features(Ok(1)).is_ok());
    assert!(validate_d3d11_device_features(Ok(-1)).is_ok());
    assert!(matches!(
        validate_d3d11_device_features(Ok(0)).unwrap_err(),
        D3d11On12Error::StructuredBuffersUnsupported
    ));
    assert_eq!(
        validate_d3d11_device_features(Err(vec!["cause".to_string()]))
            .unwrap_err()
            .chain(),
        ["Checking GPU device feature support", "cause"]
    );
}

#[test]
fn devices_are_made_from_the_dx12_context() {
    let answers = answers();
    let shared = answers.dx12.as_ref().ok().unwrap().context.clone();
    let devices = replay_directx_setup(true, true, answers, FeatureLevel::Direct3D11p1)
        .ok()
        .unwrap();
    assert_eq!(devices.d3d12_device, 0x10);
    assert_eq!(devices.d3d12_queue, 0x20);
    assert_eq!(devices.feature_level, FeatureLevel::Direct3D11p1);
    assert!(Arc::ptr_eq(
        &devices.external_wgpu_context.device,
        &shared.device
    ));
}

#[test]
fn a_failed_factory_ends_the_setup() {
    let mut answers = answers();
    answers.factory = failed();
    answers.adapter = failed();
    assert_eq!(error_of(answers), ["Creating DXGI factory", "cause"]);
}

#[test]
fn a_failed_dx12_context_is_reported_whole() {
    let mut answers = answers();
    answers.dx12 = Err(ContextError::DeviceRequest {
        causes: vec!["cause".to_string()],
    });
    assert_eq!(
        error_of(answers),
        [
            "Creating DX12 external wgpu context",
            "failed to create DX12 wgpu device for external compositing",
            "cause"
        ]
    );
}

#[test]
fn null_native_objects_end_the_setup() {
    let mut no_device = answers();
    no_device.dx12 = Ok(dx12(0, 0));
    assert_eq!(
        error_of(no_device),
        ["Borrowing external wgpu D3D12 device: null COM pointer"]
    );
    let mut no_queue = answers();
    no_queue.dx12 = Ok(dx12(0x10, 0));
    assert_eq!(
        error_of(no_queue),
        ["Borrowing external wgpu D3D12 command queue: null COM pointer"]
    );
}

#[test]
fn native_objects_that_cannot_be_borrowed_end_the_setup() {
    let mut no_device = answers();
    no_device.device_borrowed = false;
    assert_eq!(
        error_of(no_device),
        ["Borrowing external wgpu D3D12 device"]
    );
    let mut no_queue = answers();
    no_queue.queue_borrowed = false;
    assert_eq!(
        error_of(no_queue),
        ["Borrowing external wgpu D3D12 command queue"]
    );
}

#[test]
fn a_missing_dxgi_adapter_ends_the_setup() {
    let mut answers = answers();
    answers.adapter = failed();
    assert_eq!(
        error_of(answers),
        [
            "Getting DXGI adapter for external wgpu DX12 device",
            "Enumerating adapter by DX12 device LUID",
            "cause"
        ]
    );
}

#[test]
fn a_queue_that_cannot_be_cast_ends_the_setup() {
    let mut answers = answers();
    answers.queue_cast = failed();
    assert_eq!(
        error_of(answers),
        [
            "Creating D3D11On12 device",
            "Casting DX12 command queue for D3D11On12CreateDevice",
            "cause"
        ]
    );
}

#[test]
fn a_failed_device_call_ends_the_setup() {
    let mut answers = answers();
    answers.call = failed();
    answers.device_given = false;
    assert_eq!(error_of(answers), ["Creating D3D11On12 device", "cause"]);
}

#[test]
fn a_call_without_a_device_ends_the_setup() {
    let mut answers = answers();
    answers.device_given = false;
    answers.context_given = false;
    assert_eq!(
        error_of(answers),
        [
            "Creating D3D11On12 device",
            "D3D11On12CreateDevice returned no D3D11 device"
        ]
    );
}

#[test]
fn a_device_without_structured_buffers_ends_the_setup() {
    let mut answers = answers();
    answers.features = Ok(0);
    answers.context_given = false;
    assert_eq!(
        error_of(answers),
        [
            "Creating D3D11On12 device",
            "Required feature StructuredBuffer is not supported by GPU/driver"
        ]
    );
}

#[test]
fn a_call_without_a_device_context_ends_the_setup() {
    let mut answers = answers();
    answers.context_given = false;
    answers.device_cast = failed();
    assert_eq!(
        error_of(answers),
        [
            "Creating D3D11On12 device",
            "D3D11On12CreateDevice returned no D3D11 device context"
        ]
    );
}

#[test]
fn a_device_that_cannot_be_cast_ends_the_setup() {
    let mut answers = answers();
    answers.device_cast = failed();
    assert!(matches!(
        replay_directx_setup(false, false, answers, FeatureLevel::Direct3D11p0)
            .err()
            .unwrap(),
        DirectXError::D3d11On12(D3d11On12Error::DeviceCast { .. })
    ));
}

#[test]
fn the_renderer_draws_with_the_device_of_wgpu() {
    let handles = Dx12Handles {
        device: 0x1230,
        queue: 0x4560,
    };
    let facts = AdapterFacts {
        name: "Adapter".to_string(),
        backend: wgpu::Backend::Dx12,
        limits: wgpu::Limits::default(),
    };
    let made = wgpu::Device::noop(&wgpu::DeviceDescriptor::default());
    let mut answers = answers();
    answers.dx12 = replay_dx12_setup(Ok(facts), Ok(made), Some(handles), Some(handles));
    let devices = replay_directx_setup(false, false, answers, FeatureLevel::Direct3D10p1)
        .ok()
        .unwrap();
    assert_eq!(devices.d3d12_device, handles.device);
    assert_eq!(devices.d3d12_queue, handles.queue);
}
