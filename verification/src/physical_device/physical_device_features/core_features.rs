use vstd::prelude::*;

use crate::{Bool32, FALSE};

verus! {

/// The number of switches in the core block.
pub const CORE_FEATURE_COUNT: usize = 55;

/// The core block of a feature record: the switches every device reports.
///
/// Each field is a switch that holds `TRUE` or `FALSE`. The order of the fields is the
/// order of the block: position 0 is `robust_buffer_access`, the last position is
/// `inherited_queries`.
#[derive(Copy, Clone, Debug, PartialEq, Eq, Structural)]
pub struct CoreFeatures {
    pub robust_buffer_access: Bool32,
    pub full_draw_index_uint32: Bool32,
    pub image_cube_array: Bool32,
    pub independent_blend: Bool32,
    pub geometry_shader: Bool32,
    pub tessellation_shader: Bool32,
    pub sample_rate_shading: Bool32,
    pub dual_src_blend: Bool32,
    pub logic_op: Bool32,
    pub multi_draw_indirect: Bool32,
    pub draw_indirect_first_instance: Bool32,
    pub depth_clamp: Bool32,
    pub depth_bias_clamp: Bool32,
    pub fill_mode_non_solid: Bool32,
    pub depth_bounds: Bool32,
    pub wide_lines: Bool32,
    pub large_points: Bool32,
    pub alpha_to_one: Bool32,
    pub multi_viewport: Bool32,
    pub sampler_anisotropy: Bool32,
    pub texture_compression_etc2: Bool32,
    pub texture_compression_astc_ldr: Bool32,
    pub texture_compression_bc: Bool32,
    pub occlusion_query_precise: Bool32,
    pub pipeline_statistics_query: Bool32,
    pub vertex_pipeline_stores_and_atomics: Bool32,
    pub fragment_stores_and_atomics: Bool32,
    pub shader_tessellation_and_geometry_point_size: Bool32,
    pub shader_image_gather_extended: Bool32,
    pub shader_storage_image_extended_formats: Bool32,
    pub shader_storage_image_multisample: Bool32,
    pub shader_storage_image_read_without_format: Bool32,
    pub shader_storage_image_write_without_format: Bool32,
    pub shader_uniform_buffer_array_dynamic_indexing: Bool32,
    pub shader_sampled_image_array_dynamic_indexing: Bool32,
    pub shader_storage_buffer_array_dynamic_indexing: Bool32,
    pub shader_storage_image_array_dynamic_indexing: Bool32,
    pub shader_clip_distance: Bool32,
    pub shader_cull_distance: Bool32,
    pub shader_float64: Bool32,
    pub shader_int64: Bool32,
    pub shader_int16: Bool32,
    pub shader_resource_residency: Bool32,
    pub shader_resource_min_lod: Bool32,
    pub sparse_binding: Bool32,
    pub sparse_residency_buffer: Bool32,
    pub sparse_residency_image2_d: Bool32,
    pub sparse_residency_image3_d: Bool32,
    pub sparse_residency2_samples: Bool32,
    pub sparse_residency4_samples: Bool32,
    pub sparse_residency8_samples: Bool32,
    pub sparse_residency16_samples: Bool32,
    pub sparse_residency_aliased: Bool32,
    pub variable_multisample_rate: Bool32,
    pub inherited_queries: Bool32,
}

impl View for CoreFeatures {
    type V = Seq<Bool32>;

    /// The switches of the block, in the block's order.
    open spec fn view(&self) -> Seq<Bool32> {
        Seq::new(CORE_FEATURE_COUNT as nat, |index: int| self.flag_at(index))
    }
}

impl CoreFeatures {
    /// The switch at position `index` of the block's order. Positions past the
    /// end of the block read as `FALSE`.
    pub open spec fn flag_at(&self, index: int) -> Bool32 {
        if index == 0 {
            self.robust_buffer_access
        } else if index == 1 {
            self.full_draw_index_uint32
        } else if index == 2 {
            self.image_cube_array
        } else if index == 3 {
            self.independent_blend
        } else if index == 4 {
            self.geometry_shader
        } else if index == 5 {
            self.tessellation_shader
        } else if index == 6 {
            self.sample_rate_shading
        } else if index == 7 {
            self.dual_src_blend
        } else if index == 8 {
            self.logic_op
        } else if index == 9 {
            self.multi_draw_indirect
        } else if index == 10 {
            self.draw_indirect_first_instance
        } else if index == 11 {
            self.depth_clamp
        } else if index == 12 {
            self.depth_bias_clamp
        } else if index == 13 {
            self.fill_mode_non_solid
        } else if index == 14 {
            self.depth_bounds
        } else if index == 15 {
            self.wide_lines
        } else if index == 16 {
            self.large_points
        } else if index == 17 {
            self.alpha_to_one
        } else if index == 18 {
            self.multi_viewport
        } else if index == 19 {
            self.sampler_anisotropy
        } else if index == 20 {
            self.texture_compression_etc2
        } else if index == 21 {
            self.texture_compression_astc_ldr
        } else if index == 22 {
            self.texture_compression_bc
        } else if index == 23 {
            self.occlusion_query_precise
        } else if index == 24 {
            self.pipeline_statistics_query
        } else if index == 25 {
            self.vertex_pipeline_stores_and_atomics
        } else if index == 26 {
            self.fragment_stores_and_atomics
        } else if index == 27 {
            self.shader_tessellation_and_geometry_point_size
        } else if index == 28 {
            self.shader_image_gather_extended
        } else if index == 29 {
            self.shader_storage_image_extended_formats
        } else if index == 30 {
            self.shader_storage_image_multisample
        } else if index == 31 {
            self.shader_storage_image_read_without_format
        } else if index == 32 {
            self.shader_storage_image_write_without_format
        } else if index == 33 {
            self.shader_uniform_buffer_array_dynamic_indexing
        } else if index == 34 {
            self.shader_sampled_image_array_dynamic_indexing
        } else if index == 35 {
            self.shader_storage_buffer_array_dynamic_indexing
        } else if index == 36 {
            self.shader_storage_image_array_dynamic_indexing
        } else if index == 37 {
            self.shader_clip_distance
        } else if index == 38 {
            self.shader_cull_distance
        } else if index == 39 {
            self.shader_float64
        } else if index == 40 {
            self.shader_int64
        } else if index == 41 {
            self.shader_int16
        } else if index == 42 {
            self.shader_resource_residency
        } else if index == 43 {
            self.shader_resource_min_lod
        } else if index == 44 {
            self.sparse_binding
        } else if index == 45 {
            self.sparse_residency_buffer
        } else if index == 46 {
            self.sparse_residency_image2_d
        } else if index == 47 {
            self.sparse_residency_image3_d
        } else if index == 48 {
            self.sparse_residency2_samples
        } else if index == 49 {
            self.sparse_residency4_samples
        } else if index == 50 {
            self.sparse_residency8_samples
        } else if index == 51 {
            self.sparse_residency16_samples
        } else if index == 52 {
            self.sparse_residency_aliased
        } else if index == 53 {
            self.variable_multisample_rate
        } else if index == 54 {
            self.inherited_queries
        } else {
            FALSE
        }
    }

    /// The name of the switch at position `index`, as diagnostics print it.
    pub open spec fn flag_name_at(index: int) -> Seq<char> {
        if index == 0 {
            "robust_buffer_access"@
        } else if index == 1 {
            "full_draw_index_uint32"@
        } else if index == 2 {
            "image_cube_array"@
        } else if index == 3 {
            "independent_blend"@
        } else if index == 4 {
            "geometry_shader"@
        } else if index == 5 {
            "tessellation_shader"@
        } else if index == 6 {
            "sample_rate_shading"@
        } else if index == 7 {
            "dual_src_blend"@
        } else if index == 8 {
            "logic_op"@
        } else if index == 9 {
            "multi_draw_indirect"@
        } else if index == 10 {
            "draw_indirect_first_instance"@
        } else if index == 11 {
            "depth_clamp"@
        } else if index == 12 {
            "depth_bias_clamp"@
        } else if index == 13 {
            "fill_mode_non_solid"@
        } else if index == 14 {
            "depth_bounds"@
        } else if index == 15 {
            "wide_lines"@
        } else if index == 16 {
            "large_points"@
        } else if index == 17 {
            "alpha_to_one"@
        } else if index == 18 {
            "multi_viewport"@
        } else if index == 19 {
            "sampler_anisotropy"@
        } else if index == 20 {
            "texture_compression_etc2"@
        } else if index == 21 {
            "texture_compression_astc_ldr"@
        } else if index == 22 {
            "texture_compression_bc"@
        } else if index == 23 {
            "occlusion_query_precise"@
        } else if index == 24 {
            "pipeline_statistics_query"@
        } else if index == 25 {
            "vertex_pipeline_stores_and_atomics"@
        } else if index == 26 {
            "fragment_stores_and_atomics"@
        } else if index == 27 {
            "shader_tessellation_and_geometry_point_size"@
        } else if index == 28 {
            "shader_image_gather_extended"@
        } else if index == 29 {
            "shader_storage_image_extended_formats"@
        } else if index == 30 {
            "shader_storage_image_multisample"@
        } else if index == 31 {
            "shader_storage_image_read_without_format"@
        } else if index == 32 {
            "shader_storage_image_write_without_format"@
        } else if index == 33 {
            "shader_uniform_buffer_array_dynamic_indexing"@
        } else if index == 34 {
            "shader_sampled_image_array_dynamic_indexing"@
        } else if index == 35 {
            "shader_storage_buffer_array_dynamic_indexing"@
        } else if index == 36 {
            "shader_storage_image_array_dynamic_indexing"@
        } else if index == 37 {
            "shader_clip_distance"@
        } else if index == 38 {
            "shader_cull_distance"@
        } else if index == 39 {
            "shader_float64"@
        } else if index == 40 {
            "shader_int64"@
        } else if index == 41 {
            "shader_int16"@
        } else if index == 42 {
            "shader_resource_residency"@
        } else if index == 43 {
            "shader_resource_min_lod"@
        } else if index == 44 {
            "sparse_binding"@
        } else if index == 45 {
            "sparse_residency_buffer"@
        } else if index == 46 {
            "sparse_residency_image2_d"@
        } else if index == 47 {
            "sparse_residency_image3_d"@
        } else if index == 48 {
            "sparse_residency2_samples"@
        } else if index == 49 {
            "sparse_residency4_samples"@
        } else if index == 50 {
            "sparse_residency8_samples"@
        } else if index == 51 {
            "sparse_residency16_samples"@
        } else if index == 52 {
            "sparse_residency_aliased"@
        } else if index == 53 {
            "variable_multisample_rate"@
        } else if index == 54 {
            "inherited_queries"@
        } else {
            Seq::empty()
        }
    }

    /// Reads the switch at position `index`, or nothing past the end of the block.
    pub fn flag(&self, index: usize) -> (flag: Option<Bool32>)
        ensures
            index < CORE_FEATURE_COUNT ==> flag == Some(self@[index as int]),
            index >= CORE_FEATURE_COUNT ==> flag.is_none(),
    {
        match index {
            0 => Some(self.robust_buffer_access),
            1 => Some(self.full_draw_index_uint32),
            2 => Some(self.image_cube_array),
            3 => Some(self.independent_blend),
            4 => Some(self.geometry_shader),
            5 => Some(self.tessellation_shader),
            6 => Some(self.sample_rate_shading),
            7 => Some(self.dual_src_blend),
            8 => Some(self.logic_op),
            9 => Some(self.multi_draw_indirect),
            10 => Some(self.draw_indirect_first_instance),
            11 => Some(self.depth_clamp),
            12 => Some(self.depth_bias_clamp),
            13 => Some(self.fill_mode_non_solid),
            14 => Some(self.depth_bounds),
            15 => Some(self.wide_lines),
            16 => Some(self.large_points),
            17 => Some(self.alpha_to_one),
            18 => Some(self.multi_viewport),
            19 => Some(self.sampler_anisotropy),
            20 => Some(self.texture_compression_etc2),
            21 => Some(self.texture_compression_astc_ldr),
            22 => Some(self.texture_compression_bc),
            23 => Some(self.occlusion_query_precise),
            24 => Some(self.pipeline_statistics_query),
            25 => Some(self.vertex_pipeline_stores_and_atomics),
            26 => Some(self.fragment_stores_and_atomics),
            27 => Some(self.shader_tessellation_and_geometry_point_size),
            28 => Some(self.shader_image_gather_extended),
            29 => Some(self.shader_storage_image_extended_formats),
            30 => Some(self.shader_storage_image_multisample),
            31 => Some(self.shader_storage_image_read_without_format),
            32 => Some(self.shader_storage_image_write_without_format),
            33 => Some(self.shader_uniform_buffer_array_dynamic_indexing),
            34 => Some(self.shader_sampled_image_array_dynamic_indexing),
            35 => Some(self.shader_storage_buffer_array_dynamic_indexing),
            36 => Some(self.shader_storage_image_array_dynamic_indexing),
            37 => Some(self.shader_clip_distance),
            38 => Some(self.shader_cull_distance),
            39 => Some(self.shader_float64),
            40 => Some(self.shader_int64),
            41 => Some(self.shader_int16),
            42 => Some(self.shader_resource_residency),
            43 => Some(self.shader_resource_min_lod),
            44 => Some(self.sparse_binding),
            45 => Some(self.sparse_residency_buffer),
            46 => Some(self.sparse_residency_image2_d),
            47 => Some(self.sparse_residency_image3_d),
            48 => Some(self.sparse_residency2_samples),
            49 => Some(self.sparse_residency4_samples),
            50 => Some(self.sparse_residency8_samples),
            51 => Some(self.sparse_residency16_samples),
            52 => Some(self.sparse_residency_aliased),
            53 => Some(self.variable_multisample_rate),
            54 => Some(self.inherited_queries),
            _ => None,
        }
    }

    /// The name of the switch at position `index`, or nothing past the end of the
    /// block.
    pub fn flag_name(index: usize) -> (name: Option<&'static str>)
        ensures
            index < CORE_FEATURE_COUNT ==> name.is_some() && name.unwrap()@ == Self::flag_name_at(
                index as int,
            ),
            index >= CORE_FEATURE_COUNT ==> name.is_none(),
    {
        match index {
            0 => Some("robust_buffer_access"),
            1 => Some("full_draw_index_uint32"),
            2 => Some("image_cube_array"),
            3 => Some("independent_blend"),
            4 => Some("geometry_shader"),
            5 => Some("tessellation_shader"),
            6 => Some("sample_rate_shading"),
            7 => Some("dual_src_blend"),
            8 => Some("logic_op"),
            9 => Some("multi_draw_indirect"),
            10 => Some("draw_indirect_first_instance"),
            11 => Some("depth_clamp"),
            12 => Some("depth_bias_clamp"),
            13 => Some("fill_mode_non_solid"),
            14 => Some("depth_bounds"),
            15 => Some("wide_lines"),
            16 => Some("large_points"),
            17 => Some("alpha_to_one"),
            18 => Some("multi_viewport"),
            19 => Some("sampler_anisotropy"),
            20 => Some("texture_compression_etc2"),
            21 => Some("texture_compression_astc_ldr"),
            22 => Some("texture_compression_bc"),
            23 => Some("occlusion_query_precise"),
            24 => Some("pipeline_statistics_query"),
            25 => Some("vertex_pipeline_stores_and_atomics"),
            26 => Some("fragment_stores_and_atomics"),
            27 => Some("shader_tessellation_and_geometry_point_size"),
            28 => Some("shader_image_gather_extended"),
            29 => Some("shader_storage_image_extended_formats"),
            30 => Some("shader_storage_image_multisample"),
            31 => Some("shader_storage_image_read_without_format"),
            32 => Some("shader_storage_image_write_without_format"),
            33 => Some("shader_uniform_buffer_array_dynamic_indexing"),
            34 => Some("shader_sampled_image_array_dynamic_indexing"),
            35 => Some("shader_storage_buffer_array_dynamic_indexing"),
            36 => Some("shader_storage_image_array_dynamic_indexing"),
            37 => Some("shader_clip_distance"),
            38 => Some("shader_cull_distance"),
            39 => Some("shader_float64"),
            40 => Some("shader_int64"),
            41 => Some("shader_int16"),
            42 => Some("shader_resource_residency"),
            43 => Some("shader_resource_min_lod"),
            44 => Some("sparse_binding"),
            45 => Some("sparse_residency_buffer"),
            46 => Some("sparse_residency_image2_d"),
            47 => Some("sparse_residency_image3_d"),
            48 => Some("sparse_residency2_samples"),
            49 => Some("sparse_residency4_samples"),
            50 => Some("sparse_residency8_samples"),
            51 => Some("sparse_residency16_samples"),
            52 => Some("sparse_residency_aliased"),
            53 => Some("variable_multisample_rate"),
            54 => Some("inherited_queries"),
            _ => None,
        }
    }
}

impl Default for CoreFeatures {
    /// The block with every switch off.
    fn default() -> (features: Self)
        ensures
            forall|index: int| 0 <= index < CORE_FEATURE_COUNT ==> features@[index] == FALSE,
    {
        CoreFeatures {
            robust_buffer_access: FALSE,
            full_draw_index_uint32: FALSE,
            image_cube_array: FALSE,
            independent_blend: FALSE,
            geometry_shader: FALSE,
            tessellation_shader: FALSE,
            sample_rate_shading: FALSE,
            dual_src_blend: FALSE,
            logic_op: FALSE,
            multi_draw_indirect: FALSE,
            draw_indirect_first_instance: FALSE,
            depth_clamp: FALSE,
            depth_bias_clamp: FALSE,
            fill_mode_non_solid: FALSE,
            depth_bounds: FALSE,
            wide_lines: FALSE,
            large_points: FALSE,
            alpha_to_one: FALSE,
            multi_viewport: FALSE,
            sampler_anisotropy: FALSE,
            texture_compression_etc2: FALSE,
            texture_compression_astc_ldr: FALSE,
            texture_compression_bc: FALSE,
            occlusion_query_precise: FALSE,
            pipeline_statistics_query: FALSE,
            vertex_pipeline_stores_and_atomics: FALSE,
            fragment_stores_and_atomics: FALSE,
            shader_tessellation_and_geometry_point_size: FALSE,
            shader_image_gather_extended: FALSE,
            shader_storage_image_extended_formats: FALSE,
            shader_storage_image_multisample: FALSE,
            shader_storage_image_read_without_format: FALSE,
            shader_storage_image_write_without_format: FALSE,
            shader_uniform_buffer_array_dynamic_indexing: FALSE,
            shader_sampled_image_array_dynamic_indexing: FALSE,
            shader_storage_buffer_array_dynamic_indexing: FALSE,
            shader_storage_image_array_dynamic_indexing: FALSE,
            shader_clip_distance: FALSE,
            shader_cull_distance: FALSE,
            shader_float64: FALSE,
            shader_int64: FALSE,
            shader_int16: FALSE,
            shader_resource_residency: FALSE,
            shader_resource_min_lod: FALSE,
            sparse_binding: FALSE,
            sparse_residency_buffer: FALSE,
            sparse_residency_image2_d: FALSE,
            sparse_residency_image3_d: FALSE,
            sparse_residency2_samples: FALSE,
            sparse_residency4_samples: FALSE,
            sparse_residency8_samples: FALSE,
            sparse_residency16_samples: FALSE,
            sparse_residency_aliased: FALSE,
            variable_multisample_rate: FALSE,
            inherited_queries: FALSE,
        }
    }
}

} // verus!
