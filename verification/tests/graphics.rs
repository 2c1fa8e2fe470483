use external_compositor::graphics::{required_limits, DeviceRequest};

fn adapter_limits() -> wgpu::Limits {
    wgpu::Limits {
        max_texture_dimension_1d: 16384,
        max_texture_dimension_2d: 32768,
        max_texture_dimension_3d: 4096,
        min_uniform_buffer_offset_alignment: 64,
        min_storage_buffer_offset_alignment: 32,
        max_bind_groups: 8,
        max_buffer_size: 1 << 34,
        ..wgpu::Limits::default()
    }
}

#[test]
fn required_limits_take_resolution_and_alignment_from_the_adapter() {
    let limits = required_limits(adapter_limits());
    assert_eq!(limits.max_texture_dimension_1d, 16384);
    assert_eq!(limits.max_texture_dimension_2d, 32768);
    assert_eq!(limits.max_texture_dimension_3d, 4096);
    assert_eq!(limits.min_uniform_buffer_offset_alignment, 64);
    assert_eq!(limits.min_storage_buffer_offset_alignment, 32);
}

#[test]
fn required_limits_are_downlevel_otherwise() {
    let limits = required_limits(adapter_limits());
    assert_eq!(
        limits,
        wgpu::Limits {
            max_texture_dimension_1d: 16384,
            max_texture_dimension_2d: 32768,
            max_texture_dimension_3d: 4096,
            max_texture_array_layers: 256,
            max_bind_groups: 4,
            max_bindings_per_bind_group: 1000,
            max_dynamic_uniform_buffers_per_pipeline_layout: 8,
            max_dynamic_storage_buffers_per_pipeline_layout: 4,
            max_sampled_textures_per_shader_stage: 16,
            max_samplers_per_shader_stage: 16,
            max_storage_buffers_per_shader_stage: 4,
            max_storage_textures_per_shader_stage: 4,
            max_uniform_buffers_per_shader_stage: 12,
            max_binding_array_elements_per_shader_stage: 0,
            max_binding_array_acceleration_structure_elements_per_shader_stage: 0,
            max_binding_array_sampler_elements_per_shader_stage: 0,
            max_uniform_buffer_binding_size: 16384,
            max_storage_buffer_binding_size: 134_217_728,
            max_vertex_buffers: 8,
            max_buffer_size: 268_435_456,
            max_vertex_attributes: 16,
            max_vertex_buffer_array_stride: 2048,
            max_inter_stage_shader_variables: 15,
            min_uniform_buffer_offset_alignment: 64,
            min_storage_buffer_offset_alignment: 32,
            max_color_attachments: 4,
            max_color_attachment_bytes_per_sample: 32,
            max_compute_workgroup_storage_size: 16352,
            max_compute_invocations_per_workgroup: 256,
            max_compute_workgroup_size_x: 256,
            max_compute_workgroup_size_y: 256,
            max_compute_workgroup_size_z: 64,
            max_compute_workgroups_per_dimension: 65535,
            max_immediate_size: 0,
            max_non_sampler_bindings: 1_000_000,
            max_task_mesh_workgroup_total_count: 0,
            max_task_mesh_workgroups_per_dimension: 0,
            max_task_invocations_per_workgroup: 0,
            max_task_invocations_per_dimension: 0,
            max_mesh_invocations_per_workgroup: 0,
            max_mesh_invocations_per_dimension: 0,
            max_task_payload_size: 0,
            max_mesh_output_vertices: 0,
            max_mesh_output_primitives: 0,
            max_mesh_output_layers: 0,
            max_mesh_multiview_view_count: 0,
            max_blas_primitive_count: 0,
            max_blas_geometry_count: 0,
            max_tlas_instance_count: 0,
            max_acceleration_structures_per_shader_stage: 0,
            max_multiview_view_count: 0,
        }
    );
}

#[test]
fn required_limits_ignore_what_else_the_adapter_offers() {
    let richer = wgpu::Limits {
        max_bind_groups: 32,
        max_vertex_buffers: 31,
        ..adapter_limits()
    };
    assert_eq!(required_limits(richer), required_limits(adapter_limits()));
}

#[test]
fn required_limits_do_not_change_when_asked_for_again() {
    let once = required_limits(adapter_limits());
    assert_eq!(required_limits(once.clone()), once);
}

#[test]
fn descriptor_asks_for_the_limits_and_nothing_optional() {
    let limits = required_limits(adapter_limits());
    let descriptor = DeviceRequest {
        label: "label",
        required_limits: limits.clone(),
    }
    .descriptor();
    assert_eq!(descriptor.label, Some("label"));
    assert_eq!(descriptor.required_limits, limits);
    assert!(descriptor.required_features.is_empty());
    assert!(!descriptor.experimental_features.is_enabled());
    assert!(matches!(
        descriptor.memory_hints,
        wgpu::MemoryHints::MemoryUsage
    ));
    assert!(matches!(descriptor.trace, wgpu::Trace::Off));
}
