use external_compositor::external_context::discard_report;
use external_compositor::graphics::required_limits;
use external_compositor::metal::{
    replay_metal_setup, validate_metal_device, MetalMatch, MetalSearch, MetalTarget, SearchStep,
};
use external_compositor::{ContextError, ExternalWgpuContext};

fn device() -> (wgpu::Device, wgpu::Queue) {
    wgpu::Device::noop(&wgpu::DeviceDescriptor::default())
}

#[test]
fn a_null_metal_device_is_refused() {
    let error = MetalTarget::new(0).unwrap_err();
    assert!(matches!(error, ContextError::NullMetalDevice));
    assert_eq!(
        error.message(),
        "cannot create external wgpu context from a null Metal device"
    );
    assert_eq!(MetalTarget::new(1).unwrap(), MetalTarget { metal_device: 1 });
}

#[test]
fn an_instance_without_metal_is_refused() {
    let error = MetalTarget { metal_device: 7 }
        .instance_opened(false, 3)
        .unwrap_err();
    assert_eq!(
        error.message(),
        "external compositor wgpu instance is not backed by Metal"
    );
}

#[test]
fn an_instance_without_adapters_is_refused() {
    let error = MetalTarget { metal_device: 0xabc }
        .instance_opened(true, 0)
        .unwrap_err();
    assert_eq!(
        error.message(),
        "failed to find a wgpu Metal adapter backed by GPUI Metal device (0xabc)"
    );
}

#[test]
fn the_search_passes_over_what_does_not_match() {
    let search = MetalTarget { metal_device: 7 }
        .instance_opened(true, 3)
        .unwrap();
    let second = MetalSearch {
        metal_device: 7,
        adapter_count: 3,
        current: 1,
    };
    let third = MetalSearch {
        metal_device: 7,
        adapter_count: 3,
        current: 2,
    };
    assert_eq!(
        search.adapter_opened(None).unwrap(),
        SearchStep::TryNext(second)
    );
    assert_eq!(
        second.adapter_opened(Some(8)).unwrap(),
        SearchStep::TryNext(third)
    );
    assert_eq!(
        third.adapter_opened(Some(7)).unwrap(),
        SearchStep::CreateDevice(MetalMatch {
            metal_device: 7,
            adapter: 2
        })
    );
    assert!(matches!(
        third.adapter_opened(Some(8)).unwrap_err(),
        ContextError::NoMetalAdapter { metal_device: 7 }
    ));
}

#[test]
fn the_request_is_made_for_the_adapter() {
    let search = MetalSearch {
        metal_device: 7,
        adapter_count: 1,
        current: 0,
    };
    let limits = wgpu::Limits::default();
    let request = search.device_request(limits.clone());
    assert_eq!(request.label, "gpui_external_compositor_device");
    assert_eq!(request.required_limits, required_limits(limits));
}

#[test]
fn the_identity_of_the_metal_device_is_checked() {
    assert!(validate_metal_device(Some(7), 7).is_ok());
    assert_eq!(
        validate_metal_device(None, 7).unwrap_err().message(),
        "external compositor wgpu device is not backed by Metal"
    );
    assert_eq!(
        validate_metal_device(Some(0x10), 0x2f).unwrap_err().message(),
        "external compositor wgpu Metal device (0x10) does not match GPUI Metal device (0x2f)"
    );
}

#[test]
fn a_device_that_is_not_made_is_reported_with_its_causes() {
    let found = MetalMatch {
        metal_device: 7,
        adapter: 0,
    };
    let error = found
        .device_created(Err(vec!["out of memory".to_string(), "driver".to_string()]))
        .err()
        .unwrap();
    assert_eq!(
        error.chain(),
        [
            "failed to create wgpu device from GPUI Metal device",
            "out of memory",
            "driver"
        ]
    );
}

#[test]
fn a_device_with_the_wrong_identity_is_not_shared() {
    let found = MetalMatch {
        metal_device: 7,
        adapter: 0,
    };
    let made = found.device_created(Ok(device())).ok().unwrap();
    assert_eq!(made.metal_device, 7);
    let error = ExternalWgpuContext::from_metal_device(made, Some(9), discard_report)
        .err()
        .unwrap();
    assert!(matches!(
        error,
        ContextError::MetalDeviceMismatch {
            wgpu_device: 9,
            metal_device: 7
        }
    ));
}

#[test]
fn a_metal_setup_shares_the_device_of_the_first_match() {
    let (device, queue) = device();
    let same_device = device.clone();
    let opened = vec![None, Some(8), Some(7), Some(7)];
    let context = replay_metal_setup(7, true, &opened, Ok((device, queue)), Some(7))
        .ok()
        .unwrap();
    assert_eq!(*context.device, same_device);
}

#[test]
fn a_metal_setup_fails_where_no_adapter_matches() {
    let opened = vec![None, Some(8)];
    let error = replay_metal_setup(7, true, &opened, Ok(device()), Some(7))
        .err()
        .unwrap();
    assert!(matches!(
        error,
        ContextError::NoMetalAdapter { metal_device: 7 }
    ));
    assert_eq!(
        error.chain(),
        ["failed to find a wgpu Metal adapter backed by GPUI Metal device (0x7)"]
    );
}

#[test]
fn a_metal_setup_fails_at_the_first_thing_that_is_wrong() {
    let opened = vec![Some(7)];
    let failed = || Err(vec!["no".to_string()]);
    let error = replay_metal_setup(0, false, &opened, failed(), None).err().unwrap();
    assert!(matches!(error, ContextError::NullMetalDevice));
    let error = replay_metal_setup(7, false, &opened, failed(), None).err().unwrap();
    assert!(matches!(error, ContextError::InstanceNotMetal));
    let error = replay_metal_setup(7, true, &opened, failed(), None).err().unwrap();
    assert!(matches!(error, ContextError::MetalDeviceCreation { .. }));
    let error = replay_metal_setup(7, true, &opened, Ok(device()), None).err().unwrap();
    assert!(matches!(error, ContextError::DeviceNotMetal));
}
