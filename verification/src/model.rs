//! Plain-value models of the Vulkan structures that the setup logic reads.

use vstd::prelude::*;

verus! {

/// `VK_FORMAT_B8G8R8A8_SRGB`.
pub const FORMAT_B8G8R8A8_SRGB: i32 = 50;

/// `VK_COLOR_SPACE_SRGB_NONLINEAR_KHR`.
pub const COLOR_SPACE_SRGB_NONLINEAR: i32 = 0;

/// `VK_PRESENT_MODE_MAILBOX_KHR`.
pub const PRESENT_MODE_MAILBOX: i32 = 1;

/// `VK_PRESENT_MODE_FIFO_KHR`, the one mode every surface must support.
pub const PRESENT_MODE_FIFO: i32 = 2;

/// `VK_QUEUE_GRAPHICS_BIT`.
pub const QUEUE_GRAPHICS_BIT: u32 = 1;

/// `VK_PHYSICAL_DEVICE_TYPE_DISCRETE_GPU`.
pub const PHYSICAL_DEVICE_TYPE_DISCRETE_GPU: i32 = 2;

/// `VK_TRUE`.
pub const VK_TRUE: u32 = 1;

/// `VK_IMAGE_USAGE_COLOR_ATTACHMENT_BIT`.
pub const IMAGE_USAGE_COLOR_ATTACHMENT: u32 = 0x10;

/// `VK_COMPOSITE_ALPHA_OPAQUE_BIT_KHR`.
pub const COMPOSITE_ALPHA_OPAQUE: u32 = 1;

/// `VK_NULL_HANDLE`, as a raw handle value.
pub const NULL_HANDLE: u64 = 0;

/// A surface format: a pixel format and the colour space it is shown in.
#[derive(Clone, Copy, Debug, PartialEq, Eq, Structural)]
pub struct SurfaceFormat {
    pub format: i32,
    pub color_space: i32,
}

/// A two-dimensional extent in pixels.
#[derive(Clone, Copy, Debug, PartialEq, Eq, Structural)]
pub struct Extent2D {
    pub width: u32,
    pub height: u32,
}

/// The capabilities of a surface, as a physical device reports them.
/// The flag fields hold the raw bits of the corresponding Vulkan bitmasks.
#[derive(Clone, Copy, Debug, PartialEq, Eq, Structural)]
pub struct SurfaceCapabilities {
    pub min_image_count: u32,
    pub max_image_count: u32,
    pub current_extent: Extent2D,
    pub min_image_extent: Extent2D,
    pub max_image_extent: Extent2D,
    pub max_image_array_layers: u32,
    pub supported_transforms: u32,
    pub current_transform: u32,
    pub supported_composite_alpha: u32,
    pub supported_usage_flags: u32,
}

/// The core features of a device to enable, one `VkBool32` per feature of
/// `VkPhysicalDeviceFeatures`, in its order.
#[derive(Clone, Copy, Debug, PartialEq, Eq, Structural)]
pub struct DeviceFeatures {
    pub robust_buffer_access: u32,
    pub full_draw_index_uint32: u32,
    pub image_cube_array: u32,
    pub independent_blend: u32,
    pub geometry_shader: u32,
    pub tessellation_shader: u32,
    pub sample_rate_shading: u32,
    pub dual_src_blend: u32,
    pub logic_op: u32,
    pub multi_draw_indirect: u32,
    pub draw_indirect_first_instance: u32,
    pub depth_clamp: u32,
    pub depth_bias_clamp: u32,
    pub fill_mode_non_solid: u32,
    pub depth_bounds: u32,
    pub wide_lines: u32,
    pub large_points: u32,
    pub alpha_to_one: u32,
    pub multi_viewport: u32,
    pub sampler_anisotropy: u32,
    pub texture_compression_etc2: u32,
    pub texture_compression_astc_ldr: u32,
    pub texture_compression_bc: u32,
    pub occlusion_query_precise: u32,
    pub pipeline_statistics_query: u32,
    pub vertex_pipeline_stores_and_atomics: u32,
    pub fragment_stores_and_atomics: u32,
    pub shader_tessellation_and_geometry_point_size: u32,
    pub shader_image_gather_extended: u32,
    pub shader_storage_image_extended_formats: u32,
    pub shader_storage_image_multisample: u32,
    pub shader_storage_image_read_without_format: u32,
    pub shader_storage_image_write_without_format: u32,
    pub shader_uniform_buffer_array_dynamic_indexing: u32,
    pub shader_sampled_image_array_dynamic_indexing: u32,
    pub shader_storage_buffer_array_dynamic_indexing: u32,
    pub shader_storage_image_array_dynamic_indexing: u32,
    pub shader_clip_distance: u32,
    pub shader_cull_distance: u32,
    pub shader_float64: u32,
    pub shader_int64: u32,
    pub shader_int16: u32,
    pub shader_resource_residency: u32,
    pub shader_resource_min_lod: u32,
    pub sparse_binding: u32,
    pub sparse_residency_buffer: u32,
    pub sparse_residency_image_2d: u32,
    pub sparse_residency_image_3d: u32,
    pub sparse_residency2_samples: u32,
    pub sparse_residency4_samples: u32,
    pub sparse_residency8_samples: u32,
    pub sparse_residency16_samples: u32,
    pub sparse_residency_aliased: u32,
    pub variable_multisample_rate: u32,
    pub inherited_queries: u32,
}

/// Whether no feature is enabled.
pub open spec fn no_features_enabled(f: DeviceFeatures) -> bool {
    &&& f.robust_buffer_access == 0
    &&& f.full_draw_index_uint32 == 0
    &&& f.image_cube_array == 0
    &&& f.independent_blend == 0
    &&& f.geometry_shader == 0
    &&& f.tessellation_shader == 0
    &&& f.sample_rate_shading == 0
    &&& f.dual_src_blend == 0
    &&& f.logic_op == 0
    &&& f.multi_draw_indirect == 0
    &&& f.draw_indirect_first_instance == 0
    &&& f.depth_clamp == 0
    &&& f.depth_bias_clamp == 0
    &&& f.fill_mode_non_solid == 0
    &&& f.depth_bounds == 0
    &&& f.wide_lines == 0
    &&& f.large_points == 0
    &&& f.alpha_to_one == 0
    &&& f.multi_viewport == 0
    &&& f.sampler_anisotropy == 0
    &&& f.texture_compression_etc2 == 0
    &&& f.texture_compression_astc_ldr == 0
    &&& f.texture_compression_bc == 0
    &&& f.occlusion_query_precise == 0
    &&& f.pipeline_statistics_query == 0
    &&& f.vertex_pipeline_stores_and_atomics == 0
    &&& f.fragment_stores_and_atomics == 0
    &&& f.shader_tessellation_and_geometry_point_size == 0
    &&& f.shader_image_gather_extended == 0
    &&& f.shader_storage_image_extended_formats == 0
    &&& f.shader_storage_image_multisample == 0
    &&& f.shader_storage_image_read_without_format == 0
    &&& f.shader_storage_image_write_without_format == 0
    &&& f.shader_uniform_buffer_array_dynamic_indexing == 0
    &&& f.shader_sampled_image_array_dynamic_indexing == 0
    &&& f.shader_storage_buffer_array_dynamic_indexing == 0
    &&& f.shader_storage_image_array_dynamic_indexing == 0
    &&& f.shader_clip_distance == 0
    &&& f.shader_cull_distance == 0
    &&& f.shader_float64 == 0
    &&& f.shader_int64 == 0
    &&& f.shader_int16 == 0
    &&& f.shader_resource_residency == 0
    &&& f.shader_resource_min_lod == 0
    &&& f.sparse_binding == 0
    &&& f.sparse_residency_buffer == 0
    &&& f.sparse_residency_image_2d == 0
    &&& f.sparse_residency_image_3d == 0
    &&& f.sparse_residency2_samples == 0
    &&& f.sparse_residency4_samples == 0
    &&& f.sparse_residency8_samples == 0
    &&& f.sparse_residency16_samples == 0
    &&& f.sparse_residency_aliased == 0
    &&& f.variable_multisample_rate == 0
    &&& f.inherited_queries == 0
}

impl DeviceFeatures {
    /// The features with every one left off.
    pub fn none() -> (r: DeviceFeatures)
        ensures
            no_features_enabled(r),
    {
        DeviceFeatures {
            robust_buffer_access: 0,
            full_draw_index_uint32: 0,
            image_cube_array: 0,
            independent_blend: 0,
            geometry_shader: 0,
            tessellation_shader: 0,
            sample_rate_shading: 0,
            dual_src_blend: 0,
            logic_op: 0,
            multi_draw_indirect: 0,
            draw_indirect_first_instance: 0,
            depth_clamp: 0,
            depth_bias_clamp: 0,
            fill_mode_non_solid: 0,
            depth_bounds: 0,
            wide_lines: 0,
            large_points: 0,
            alpha_to_one: 0,
            multi_viewport: 0,
            sampler_anisotropy: 0,
            texture_compression_etc2: 0,
            texture_compression_astc_ldr: 0,
            texture_compression_bc: 0,
            occlusion_query_precise: 0,
            pipeline_statistics_query: 0,
            vertex_pipeline_stores_and_atomics: 0,
            fragment_stores_and_atomics: 0,
            shader_tessellation_and_geometry_point_size: 0,
            shader_image_gather_extended: 0,
            shader_storage_image_extended_formats: 0,
            shader_storage_image_multisample: 0,
            shader_storage_image_read_without_format: 0,
            shader_storage_image_write_without_format: 0,
            shader_uniform_buffer_array_dynamic_indexing: 0,
            shader_sampled_image_array_dynamic_indexing: 0,
            shader_storage_buffer_array_dynamic_indexing: 0,
            shader_storage_image_array_dynamic_indexing: 0,
            shader_clip_distance: 0,
            shader_cull_distance: 0,
            shader_float64: 0,
            shader_int64: 0,
            shader_int16: 0,
            shader_resource_residency: 0,
            shader_resource_min_lod: 0,
            sparse_binding: 0,
            sparse_residency_buffer: 0,
            sparse_residency_image_2d: 0,
            sparse_residency_image_3d: 0,
            sparse_residency2_samples: 0,
            sparse_residency4_samples: 0,
            sparse_residency8_samples: 0,
            sparse_residency16_samples: 0,
            sparse_residency_aliased: 0,
            variable_multisample_rate: 0,
            inherited_queries: 0,
        }
    }
}

} // verus!
