//! What a device is requested with: its limits and its descriptor.

use vstd::prelude::*;

verus! {

/// `wgpu::Limits`, a plain record of numbers.
#[verifier::external_type_specification]
pub struct ExLimits(wgpu::Limits);

/// `wgpu::Backend`, a plain enumeration of the graphics interfaces.
#[verifier::external_type_specification]
pub struct ExBackend(wgpu::Backend);

/// `wgpu::PowerPreference`, a plain enumeration.
#[verifier::external_type_specification]
pub struct ExPowerPreference(wgpu::PowerPreference);

/// `wgpu::MemoryHints`, an enumeration whose one payload is a range of sizes.
#[verifier::external_type_specification]
pub struct ExMemoryHints(wgpu::MemoryHints);

/// `wgpu::Trace`, which says whether and where calls are traced.
#[verifier::external_type_specification]
pub struct ExTrace(wgpu::Trace);

/// `wgpu::Features`, a set of flags kept private by its crate.
#[verifier::external_type_specification]
#[verifier::external_body]
pub struct ExFeatures(wgpu::Features);

/// `wgpu::ExperimentalFeatures`, a permission token with a private field.
#[verifier::external_type_specification]
#[verifier::external_body]
pub struct ExExperimentalFeatures(wgpu::ExperimentalFeatures);

/// The record behind `wgpu::DeviceDescriptor`, generic in its label.
#[verifier::external_type_specification]
#[verifier::reject_recursive_types(L)]
pub struct ExDeviceDescriptor<L>(wgpu::wgt::DeviceDescriptor<L>);

/// The positions of the flags that are set in `features`.
pub uninterp spec fn feature_flags(features: wgpu::Features) -> Set<nat>;

/// `wgpu::Features::empty` gives the set in which no flag is set.
pub assume_specification[ wgpu::Features::empty ]() -> (features: wgpu::Features)
    ensures
        feature_flags(features) == Set::<nat>::empty(),
;

/// What `wgpu::ExperimentalFeatures::is_enabled` says of `token`: whether it
/// permits experimental features.
pub uninterp spec fn experimental_enabled(token: wgpu::ExperimentalFeatures) -> bool;

/// `wgpu::ExperimentalFeatures::disabled` gives a token that permits no
/// experimental feature.
pub assume_specification[ wgpu::ExperimentalFeatures::disabled ]() -> (token:
    wgpu::ExperimentalFeatures)
    ensures
        !experimental_enabled(token),
;

/// The limits that hold on every downlevel adapter.
pub open spec fn downlevel_limits() -> wgpu::Limits {
    wgpu::Limits {
        max_texture_dimension_1d: 2048,
        max_texture_dimension_2d: 2048,
        max_texture_dimension_3d: 256,
        max_texture_array_layers: 256,
        max_bind_groups: 4,
        max_bindings_per_bind_group: 1000,
        max_dynamic_uniform_buffers_per_pipeline_layout: 8,
        max_dynamic_storage_buffers_per_pipeline_layout: 4,
        max_sampled_textures_per_shader_stage: 16,
        max_samplers_per_shader_stage: 16,
        max_storage_buffers_per_shader_stage: 4,
        max_storage_textures_per_shader_stage: 4,
        max_uniform_buffers_per_shader_stage: 12,
        max_binding_array_elements_per_shader_stage: 0,
        max_binding_array_acceleration_structure_elements_per_shader_stage: 0,
        max_binding_array_sampler_elements_per_shader_stage: 0,
        max_uniform_buffer_binding_size: 16384,
        max_storage_buffer_binding_size: 134_217_728,
        max_vertex_buffers: 8,
        max_buffer_size: 268_435_456,
        max_vertex_attributes: 16,
        max_vertex_buffer_array_stride: 2048,
        max_inter_stage_shader_variables: 15,
        min_uniform_buffer_offset_alignment: 256,
        min_storage_buffer_offset_alignment: 256,
        max_color_attachments: 4,
        max_color_attachment_bytes_per_sample: 32,
        max_compute_workgroup_storage_size: 16352,
        max_compute_invocations_per_workgroup: 256,
        max_compute_workgroup_size_x: 256,
        max_compute_workgroup_size_y: 256,
        max_compute_workgroup_size_z: 64,
        max_compute_workgroups_per_dimension: 65535,
        max_immediate_size: 0,
        max_non_sampler_bindings: 1_000_000,
        max_task_mesh_workgroup_total_count: 0,
        max_task_mesh_workgroups_per_dimension: 0,
        max_task_invocations_per_workgroup: 0,
        max_task_invocations_per_dimension: 0,
        max_mesh_invocations_per_workgroup: 0,
        max_mesh_invocations_per_dimension: 0,
        max_task_payload_size: 0,
        max_mesh_output_vertices: 0,
        max_mesh_output_primitives: 0,
        max_mesh_output_layers: 0,
        max_mesh_multiview_view_count: 0,
        max_blas_primitive_count: 0,
        max_blas_geometry_count: 0,
        max_tlas_instance_count: 0,
        max_acceleration_structures_per_shader_stage: 0,
        max_multiview_view_count: 0,
    }
}

/// `limits` with the texture dimensions of `other`.
pub open spec fn with_resolution(limits: wgpu::Limits, other: wgpu::Limits) -> wgpu::Limits {
    wgpu::Limits {
        max_texture_dimension_1d: other.max_texture_dimension_1d,
        max_texture_dimension_2d: other.max_texture_dimension_2d,
        max_texture_dimension_3d: other.max_texture_dimension_3d,
        ..limits
    }
}

/// `limits` with the buffer offset alignments of `other`.
pub open spec fn with_alignment(limits: wgpu::Limits, other: wgpu::Limits) -> wgpu::Limits {
    wgpu::Limits {
        min_uniform_buffer_offset_alignment: other.min_uniform_buffer_offset_alignment,
        min_storage_buffer_offset_alignment: other.min_storage_buffer_offset_alignment,
        ..limits
    }
}

/// `wgpu::Limits::downlevel_defaults` gives the documented downlevel limits,
/// number by number.
pub assume_specification[ wgpu::Limits::downlevel_defaults ]() -> (limits: wgpu::Limits)
    ensures
        limits == downlevel_limits(),
;

/// `wgpu::Limits::using_resolution` takes the three texture dimensions from its
/// second argument and every other limit from its first.
pub assume_specification[ wgpu::Limits::using_resolution ](
    limits: wgpu::Limits,
    other: wgpu::Limits,
) -> (res: wgpu::Limits)
    ensures
        res == with_resolution(limits, other),
;

/// `wgpu::Limits::using_alignment` takes the two buffer offset alignments from
/// its second argument and every other limit from its first.
pub assume_specification[ wgpu::Limits::using_alignment ](
    limits: wgpu::Limits,
    other: wgpu::Limits,
) -> (res: wgpu::Limits)
    ensures
        res == with_alignment(limits, other),
;

/// The clone of a `wgpu::Limits` holds the same numbers.
pub assume_specification[ <wgpu::Limits as Clone>::clone ](limits: &wgpu::Limits) -> (res:
    wgpu::Limits)
    ensures
        res == *limits,
;

/// The limits that a device on an adapter with limits `adapter` is asked for.
pub open spec fn limits_for(adapter: wgpu::Limits) -> wgpu::Limits {
    with_alignment(with_resolution(downlevel_limits(), adapter), adapter)
}

/// The limits to request from an adapter: the downlevel limits, but textures as
/// large as the adapter allows and buffer offsets aligned as it demands.
pub fn required_limits(adapter: wgpu::Limits) -> (limits: wgpu::Limits)
    ensures
        limits == limits_for(adapter),
{
    wgpu::Limits::downlevel_defaults().using_resolution(adapter.clone()).using_alignment(adapter)
}

/// What is asked of an adapter when a device is opened on it. No optional and no
/// experimental feature is ever asked for, memory is favoured over speed, and
/// calls are not traced.
pub struct DeviceRequest {
    pub label: &'static str,
    pub required_limits: wgpu::Limits,
}

impl DeviceRequest {
    /// The request in the form that `wgpu` takes it.
    pub fn descriptor(self) -> (descriptor: wgpu::DeviceDescriptor<'static>)
        ensures
            descriptor.label == Some(self.label),
            feature_flags(descriptor.required_features) == Set::<nat>::empty(),
            descriptor.required_limits == self.required_limits,
            descriptor.memory_hints is MemoryUsage,
            descriptor.trace is Off,
            !experimental_enabled(descriptor.experimental_features),
    {
        wgpu::DeviceDescriptor {
            label: Some(self.label),
            required_features: wgpu::Features::empty(),
            required_limits: self.required_limits,
            memory_hints: wgpu::MemoryHints::MemoryUsage,
            trace: wgpu::Trace::Off,
            experimental_features: wgpu::ExperimentalFeatures::disabled(),
        }
    }
}

/// Every device is asked for the adapter's own texture dimensions and buffer offset
/// alignments, however large or small, and for the downlevel value of every other
/// limit.
pub proof fn limits_are_the_adapters_own_or_downlevel(
    adapter: wgpu::Limits,
    limits: wgpu::Limits,
)
    requires
        call_ensures(required_limits, (adapter,), limits),
    ensures
        limits.max_texture_dimension_1d == adapter.max_texture_dimension_1d,
        limits.max_texture_dimension_2d == adapter.max_texture_dimension_2d,
        limits.max_texture_dimension_3d == adapter.max_texture_dimension_3d,
        limits.min_uniform_buffer_offset_alignment == adapter.min_uniform_buffer_offset_alignment,
        limits.min_storage_buffer_offset_alignment == adapter.min_storage_buffer_offset_alignment,
        is_downlevel_otherwise(limits),
{
}

/// Whether every limit but the texture dimensions and the buffer offset alignments
/// has its downlevel value.
pub open spec fn is_downlevel_otherwise(limits: wgpu::Limits) -> bool {
    &&& limits.max_texture_array_layers == 256
    &&& limits.max_bind_groups == 4
    &&& limits.max_bindings_per_bind_group == 1000
    &&& limits.max_dynamic_uniform_buffers_per_pipeline_layout == 8
    &&& limits.max_dynamic_storage_buffers_per_pipeline_layout == 4
    &&& limits.max_sampled_textures_per_shader_stage == 16
    &&& limits.max_samplers_per_shader_stage == 16
    &&& limits.max_storage_buffers_per_shader_stage == 4
    &&& limits.max_storage_textures_per_shader_stage == 4
    &&& limits.max_uniform_buffers_per_shader_stage == 12
    &&& limits.max_binding_array_elements_per_shader_stage == 0
    &&& limits.max_binding_array_acceleration_structure_elements_per_shader_stage == 0
    &&& limits.max_binding_array_sampler_elements_per_shader_stage == 0
    &&& limits.max_uniform_buffer_binding_size == 16384
    &&& limits.max_storage_buffer_binding_size == 134_217_728
    &&& limits.max_vertex_buffers == 8
    &&& limits.max_buffer_size == 268_435_456
    &&& limits.max_vertex_attributes == 16
    &&& limits.max_vertex_buffer_array_stride == 2048
    &&& limits.max_inter_stage_shader_variables == 15
    &&& limits.max_color_attachments == 4
    &&& limits.max_color_attachment_bytes_per_sample == 32
    &&& limits.max_compute_workgroup_storage_size == 16352
    &&& limits.max_compute_invocations_per_workgroup == 256
    &&& limits.max_compute_workgroup_size_x == 256
    &&& limits.max_compute_workgroup_size_y == 256
    &&& limits.max_compute_workgroup_size_z == 64
    &&& limits.max_compute_workgroups_per_dimension == 65535
    &&& limits.max_immediate_size == 0
    &&& limits.max_non_sampler_bindings == 1_000_000
    &&& limits.max_task_mesh_workgroup_total_count == 0
    &&& limits.max_task_mesh_workgroups_per_dimension == 0
    &&& limits.max_task_invocations_per_workgroup == 0
    &&& limits.max_task_invocations_per_dimension == 0
    &&& limits.max_mesh_invocations_per_workgroup == 0
    &&& limits.max_mesh_invocations_per_dimension == 0
    &&& limits.max_task_payload_size == 0
    &&& limits.max_mesh_output_vertices == 0
    &&& limits.max_mesh_output_primitives == 0
    &&& limits.max_mesh_output_layers == 0
    &&& limits.max_mesh_multiview_view_count == 0
    &&& limits.max_blas_primitive_count == 0
    &&& limits.max_blas_geometry_count == 0
    &&& limits.max_tlas_instance_count == 0
    &&& limits.max_acceleration_structures_per_shader_stage == 0
    &&& limits.max_multiview_view_count == 0
}

/// What else an adapter offers does not matter: two adapters with the same
/// texture dimensions and the same buffer offset alignments are asked for the
/// same limits.
pub proof fn limits_depend_on_resolution_and_alignment(a: wgpu::Limits, b: wgpu::Limits)
    requires
        a.max_texture_dimension_1d == b.max_texture_dimension_1d,
        a.max_texture_dimension_2d == b.max_texture_dimension_2d,
        a.max_texture_dimension_3d == b.max_texture_dimension_3d,
        a.min_uniform_buffer_offset_alignment == b.min_uniform_buffer_offset_alignment,
        a.min_storage_buffer_offset_alignment == b.min_storage_buffer_offset_alignment,
    ensures
        limits_for(a) == limits_for(b),
{
}

/// A device opened with the required limits can itself serve as the adapter:
/// asking for limits again changes nothing.
pub proof fn required_limits_are_stable(adapter: wgpu::Limits)
    ensures
        limits_for(limits_for(adapter)) == limits_for(adapter),
{
}

} // verus!
