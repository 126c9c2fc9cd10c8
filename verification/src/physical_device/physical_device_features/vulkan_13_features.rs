use vstd::prelude::*;

use crate::{Bool32, FALSE};

verus! {

/// The number of switches in the version 1.3 block.
pub const VULKAN_13_FEATURE_COUNT: usize = 15;

/// The block of switches that version 1.3 of the API added.
///
/// Each field is a switch that holds `TRUE` or `FALSE`. The order of the fields is the
/// order of the block: position 0 is `robust_image_access`, the last position is
/// `maintenance4`.
#[derive(Copy, Clone, Debug, PartialEq, Eq, Structural)]
pub struct Vulkan13Features {
    pub robust_image_access: Bool32,
    pub inline_uniform_block: Bool32,
    pub descriptor_binding_inline_uniform_block_update_after_bind: Bool32,
    pub pipeline_creation_cache_control: Bool32,
    pub private_data: Bool32,
    pub shader_demote_to_helper_invocation: Bool32,
    pub shader_terminate_invocation: Bool32,
    pub subgroup_size_control: Bool32,
    pub compute_full_subgroups: Bool32,
    pub synchronization2: Bool32,
    pub texture_compression_astc_hdr: Bool32,
    pub shader_zero_initialize_workgroup_memory: Bool32,
    pub dynamic_rendering: Bool32,
    pub shader_integer_dot_product: Bool32,
    pub maintenance4: Bool32,
}

impl View for Vulkan13Features {
    type V = Seq<Bool32>;

    /// The switches of the block, in the block's order.
    open spec fn view(&self) -> Seq<Bool32> {
        Seq::new(VULKAN_13_FEATURE_COUNT as nat, |index: int| self.flag_at(index))
    }
}

impl Vulkan13Features {
    /// The switch at position `index` of the block's order. Positions past the
    /// end of the block read as `FALSE`.
    pub open spec fn flag_at(&self, index: int) -> Bool32 {
        if index == 0 {
            self.robust_image_access
        } else if index == 1 {
            self.inline_uniform_block
        } else if index == 2 {
            self.descriptor_binding_inline_uniform_block_update_after_bind
        } else if index == 3 {
            self.pipeline_creation_cache_control
        } else if index == 4 {
            self.private_data
        } else if index == 5 {
            self.shader_demote_to_helper_invocation
        } else if index == 6 {
            self.shader_terminate_invocation
        } else if index == 7 {
            self.subgroup_size_control
        } else if index == 8 {
            self.compute_full_subgroups
        } else if index == 9 {
            self.synchronization2
        } else if index == 10 {
            self.texture_compression_astc_hdr
        } else if index == 11 {
            self.shader_zero_initialize_workgroup_memory
        } else if index == 12 {
            self.dynamic_rendering
        } else if index == 13 {
            self.shader_integer_dot_product
        } else if index == 14 {
            self.maintenance4
        } else {
            FALSE
        }
    }

    /// The name of the switch at position `index`, as diagnostics print it.
    pub open spec fn flag_name_at(index: int) -> Seq<char> {
        if index == 0 {
            "robust_image_access"@
        } else if index == 1 {
            "inline_uniform_block"@
        } else if index == 2 {
            "descriptor_binding_inline_uniform_block_update_after_bind"@
        } else if index == 3 {
            "pipeline_creation_cache_control"@
        } else if index == 4 {
            "private_data"@
        } else if index == 5 {
            "shader_demote_to_helper_invocation"@
        } else if index == 6 {
            "shader_terminate_invocation"@
        } else if index == 7 {
            "subgroup_size_control"@
        } else if index == 8 {
            "compute_full_subgroups"@
        } else if index == 9 {
            "synchronization2"@
        } else if index == 10 {
            "texture_compression_astc_hdr"@
        } else if index == 11 {
            "shader_zero_initialize_workgroup_memory"@
        } else if index == 12 {
            "dynamic_rendering"@
        } else if index == 13 {
            "shader_integer_dot_product"@
        } else if index == 14 {
            "maintenance4"@
        } else {
            Seq::empty()
        }
    }

    /// Reads the switch at position `index`, or nothing past the end of the block.
    pub fn flag(&self, index: usize) -> (flag: Option<Bool32>)
        ensures
            index < VULKAN_13_FEATURE_COUNT ==> flag == Some(self@[index as int]),
            index >= VULKAN_13_FEATURE_COUNT ==> flag.is_none(),
    {
        match index {
            0 => Some(self.robust_image_access),
            1 => Some(self.inline_uniform_block),
            2 => Some(self.descriptor_binding_inline_uniform_block_update_after_bind),
            3 => Some(self.pipeline_creation_cache_control),
            4 => Some(self.private_data),
            5 => Some(self.shader_demote_to_helper_invocation),
            6 => Some(self.shader_terminate_invocation),
            7 => Some(self.subgroup_size_control),
            8 => Some(self.compute_full_subgroups),
            9 => Some(self.synchronization2),
            10 => Some(self.texture_compression_astc_hdr),
            11 => Some(self.shader_zero_initialize_workgroup_memory),
            12 => Some(self.dynamic_rendering),
            13 => Some(self.shader_integer_dot_product),
            14 => Some(self.maintenance4),
            _ => None,
        }
    }

    /// The name of the switch at position `index`, or nothing past the end of the
    /// block.
    pub fn flag_name(index: usize) -> (name: Option<&'static str>)
        ensures
            index < VULKAN_13_FEATURE_COUNT ==> name.is_some() && name.unwrap()@ == Self::flag_name_at(
                index as int,
            ),
            index >= VULKAN_13_FEATURE_COUNT ==> name.is_none(),
    {
        match index {
            0 => Some("robust_image_access"),
            1 => Some("inline_uniform_block"),
            2 => Some("descriptor_binding_inline_uniform_block_update_after_bind"),
            3 => Some("pipeline_creation_cache_control"),
            4 => Some("private_data"),
            5 => Some("shader_demote_to_helper_invocation"),
            6 => Some("shader_terminate_invocation"),
            7 => Some("subgroup_size_control"),
            8 => Some("compute_full_subgroups"),
            9 => Some("synchronization2"),
            10 => Some("texture_compression_astc_hdr"),
            11 => Some("shader_zero_initialize_workgroup_memory"),
            12 => Some("dynamic_rendering"),
            13 => Some("shader_integer_dot_product"),
            14 => Some("maintenance4"),
            _ => None,
        }
    }
}

impl Default for Vulkan13Features {
    /// The block with every switch off.
    fn default() -> (features: Self)
        ensures
            forall|index: int| 0 <= index < VULKAN_13_FEATURE_COUNT ==> features@[index] == FALSE,
    {
        Vulkan13Features {
            robust_image_access: FALSE,
            inline_uniform_block: FALSE,
            descriptor_binding_inline_uniform_block_update_after_bind: FALSE,
            pipeline_creation_cache_control: FALSE,
            private_data: FALSE,
            shader_demote_to_helper_invocation: FALSE,
            shader_terminate_invocation: FALSE,
            subgroup_size_control: FALSE,
            compute_full_subgroups: FALSE,
            synchronization2: FALSE,
            texture_compression_astc_hdr: FALSE,
            shader_zero_initialize_workgroup_memory: FALSE,
            dynamic_rendering: FALSE,
            shader_integer_dot_product: FALSE,
            maintenance4: FALSE,
        }
    }
}

} // verus!
