use vstd::prelude::*;

use crate::{Bool32, FALSE};

verus! {

/// The number of switches in the descriptor indexing block.
pub const DESCRIPTOR_INDEXING_FEATURE_COUNT: usize = 20;

/// The block of switches for descriptor indexing.
///
/// Each field is a switch that holds `TRUE` or `FALSE`. The order of the fields is the
/// order of the block: position 0 is `shader_input_attachment_array_dynamic_indexing`,
/// the last position is `runtime_descriptor_array`.
#[derive(Copy, Clone, Debug, PartialEq, Eq, Structural)]
pub struct DescriptorIndexingFeatures {
    pub shader_input_attachment_array_dynamic_indexing: Bool32,
    pub shader_uniform_texel_buffer_array_dynamic_indexing: Bool32,
    pub shader_storage_texel_buffer_array_dynamic_indexing: Bool32,
    pub shader_uniform_buffer_array_non_uniform_indexing: Bool32,
    pub shader_sampled_image_array_non_uniform_indexing: Bool32,
    pub shader_storage_buffer_array_non_uniform_indexing: Bool32,
    pub shader_storage_image_array_non_uniform_indexing: Bool32,
    pub shader_input_attachment_array_non_uniform_indexing: Bool32,
    pub shader_uniform_texel_buffer_array_non_uniform_indexing: Bool32,
    pub shader_storage_texel_buffer_array_non_uniform_indexing: Bool32,
    pub descriptor_binding_uniform_buffer_update_after_bind: Bool32,
    pub descriptor_binding_sampled_image_update_after_bind: Bool32,
    pub descriptor_binding_storage_image_update_after_bind: Bool32,
    pub descriptor_binding_storage_buffer_update_after_bind: Bool32,
    pub descriptor_binding_uniform_texel_buffer_update_after_bind: Bool32,
    pub descriptor_binding_storage_texel_buffer_update_after_bind: Bool32,
    pub descriptor_binding_update_unused_while_pending: Bool32,
    pub descriptor_binding_partially_bound: Bool32,
    pub descriptor_binding_variable_descriptor_count: Bool32,
    pub runtime_descriptor_array: Bool32,
}

impl View for DescriptorIndexingFeatures {
    type V = Seq<Bool32>;

    /// The switches of the block, in the block's order.
    open spec fn view(&self) -> Seq<Bool32> {
        Seq::new(DESCRIPTOR_INDEXING_FEATURE_COUNT as nat, |index: int| self.flag_at(index))
    }
}

impl DescriptorIndexingFeatures {
    /// The switch at position `index` of the block's order. Positions past the
    /// end of the block read as `FALSE`.
    pub open spec fn flag_at(&self, index: int) -> Bool32 {
        if index == 0 {
            self.shader_input_attachment_array_dynamic_indexing
        } else if index == 1 {
            self.shader_uniform_texel_buffer_array_dynamic_indexing
        } else if index == 2 {
            self.shader_storage_texel_buffer_array_dynamic_indexing
        } else if index == 3 {
            self.shader_uniform_buffer_array_non_uniform_indexing
        } else if index == 4 {
            self.shader_sampled_image_array_non_uniform_indexing
        } else if index == 5 {
            self.shader_storage_buffer_array_non_uniform_indexing
        } else if index == 6 {
            self.shader_storage_image_array_non_uniform_indexing
        } else if index == 7 {
            self.shader_input_attachment_array_non_uniform_indexing
        } else if index == 8 {
            self.shader_uniform_texel_buffer_array_non_uniform_indexing
        } else if index == 9 {
            self.shader_storage_texel_buffer_array_non_uniform_indexing
        } else if index == 10 {
            self.descriptor_binding_uniform_buffer_update_after_bind
        } else if index == 11 {
            self.descriptor_binding_sampled_image_update_after_bind
        } else if index == 12 {
            self.descriptor_binding_storage_image_update_after_bind
        } else if index == 13 {
            self.descriptor_binding_storage_buffer_update_after_bind
        } else if index == 14 {
            self.descriptor_binding_uniform_texel_buffer_update_after_bind
        } else if index == 15 {
            self.descriptor_binding_storage_texel_buffer_update_after_bind
        } else if index == 16 {
            self.descriptor_binding_update_unused_while_pending
        } else if index == 17 {
            self.descriptor_binding_partially_bound
        } else if index == 18 {
            self.descriptor_binding_variable_descriptor_count
        } else if index == 19 {
            self.runtime_descriptor_array
        } else {
            FALSE
        }
    }

    /// The name of the switch at position `index`, as diagnostics print it.
    pub open spec fn flag_name_at(index: int) -> Seq<char> {
        if index == 0 {
            "shader_input_attachment_array_dynamic_indexing"@
        } else if index == 1 {
            "shader_uniform_texel_buffer_array_dynamic_indexing"@
        } else if index == 2 {
            "shader_storage_texel_buffer_array_dynamic_indexing"@
        } else if index == 3 {
            "shader_uniform_buffer_array_non_uniform_indexing"@
        } else if index == 4 {
            "shader_sampled_image_array_non_uniform_indexing"@
        } else if index == 5 {
            "shader_storage_buffer_array_non_uniform_indexing"@
        } else if index == 6 {
            "shader_storage_image_array_non_uniform_indexing"@
        } else if index == 7 {
            "shader_input_attachment_array_non_uniform_indexing"@
        } else if index == 8 {
            "shader_uniform_texel_buffer_array_non_uniform_indexing"@
        } else if index == 9 {
            "shader_storage_texel_buffer_array_non_uniform_indexing"@
        } else if index == 10 {
            "descriptor_binding_uniform_buffer_update_after_bind"@
        } else if index == 11 {
            "descriptor_binding_sampled_image_update_after_bind"@
        } else if index == 12 {
            "descriptor_binding_storage_image_update_after_bind"@
        } else if index == 13 {
            "descriptor_binding_storage_buffer_update_after_bind"@
        } else if index == 14 {
            "descriptor_binding_uniform_texel_buffer_update_after_bind"@
        } else if index == 15 {
            "descriptor_binding_storage_texel_buffer_update_after_bind"@
        } else if index == 16 {
            "descriptor_binding_update_unused_while_pending"@
        } else if index == 17 {
            "descriptor_binding_partially_bound"@
        } else if index == 18 {
            "descriptor_binding_variable_descriptor_count"@
        } else if index == 19 {
            "runtime_descriptor_array"@
        } else {
            Seq::empty()
        }
    }

    /// Reads the switch at position `index`, or nothing past the end of the block.
    pub fn flag(&self, index: usize) -> (flag: Option<Bool32>)
        ensures
            index < DESCRIPTOR_INDEXING_FEATURE_COUNT ==> flag == Some(self@[index as int]),
            index >= DESCRIPTOR_INDEXING_FEATURE_COUNT ==> flag.is_none(),
    {
        match index {
            0 => Some(self.shader_input_attachment_array_dynamic_indexing),
            1 => Some(self.shader_uniform_texel_buffer_array_dynamic_indexing),
            2 => Some(self.shader_storage_texel_buffer_array_dynamic_indexing),
            3 => Some(self.shader_uniform_buffer_array_non_uniform_indexing),
            4 => Some(self.shader_sampled_image_array_non_uniform_indexing),
            5 => Some(self.shader_storage_buffer_array_non_uniform_indexing),
            6 => Some(self.shader_storage_image_array_non_uniform_indexing),
            7 => Some(self.shader_input_attachment_array_non_uniform_indexing),
            8 => Some(self.shader_uniform_texel_buffer_array_non_uniform_indexing),
            9 => Some(self.shader_storage_texel_buffer_array_non_uniform_indexing),
            10 => Some(self.descriptor_binding_uniform_buffer_update_after_bind),
            11 => Some(self.descriptor_binding_sampled_image_update_after_bind),
            12 => Some(self.descriptor_binding_storage_image_update_after_bind),
            13 => Some(self.descriptor_binding_storage_buffer_update_after_bind),
            14 => Some(self.descriptor_binding_uniform_texel_buffer_update_after_bind),
            15 => Some(self.descriptor_binding_storage_texel_buffer_update_after_bind),
            16 => Some(self.descriptor_binding_update_unused_while_pending),
            17 => Some(self.descriptor_binding_partially_bound),
            18 => Some(self.descriptor_binding_variable_descriptor_count),
            19 => Some(self.runtime_descriptor_array),
            _ => None,
        }
    }

    /// The name of the switch at position `index`, or nothing past the end of the
    /// block.
    pub fn flag_name(index: usize) -> (name: Option<&'static str>)
        ensures
            index < DESCRIPTOR_INDEXING_FEATURE_COUNT ==> name.is_some() && name.unwrap()@ == Self::flag_name_at(
                index as int,
            ),
            index >= DESCRIPTOR_INDEXING_FEATURE_COUNT ==> name.is_none(),
    {
        match index {
            0 => Some("shader_input_attachment_array_dynamic_indexing"),
            1 => Some("shader_uniform_texel_buffer_array_dynamic_indexing"),
            2 => Some("shader_storage_texel_buffer_array_dynamic_indexing"),
            3 => Some("shader_uniform_buffer_array_non_uniform_indexing"),
            4 => Some("shader_sampled_image_array_non_uniform_indexing"),
            5 => Some("shader_storage_buffer_array_non_uniform_indexing"),
            6 => Some("shader_storage_image_array_non_uniform_indexing"),
            7 => Some("shader_input_attachment_array_non_uniform_indexing"),
            8 => Some("shader_uniform_texel_buffer_array_non_uniform_indexing"),
            9 => Some("shader_storage_texel_buffer_array_non_uniform_indexing"),
            10 => Some("descriptor_binding_uniform_buffer_update_after_bind"),
            11 => Some("descriptor_binding_sampled_image_update_after_bind"),
            12 => Some("descriptor_binding_storage_image_update_after_bind"),
            13 => Some("descriptor_binding_storage_buffer_update_after_bind"),
            14 => Some("descriptor_binding_uniform_texel_buffer_update_after_bind"),
            15 => Some("descriptor_binding_storage_texel_buffer_update_after_bind"),
            16 => Some("descriptor_binding_update_unused_while_pending"),
            17 => Some("descriptor_binding_partially_bound"),
            18 => Some("descriptor_binding_variable_descriptor_count"),
            19 => Some("runtime_descriptor_array"),
            _ => None,
        }
    }
}

impl Default for DescriptorIndexingFeatures {
    /// The block with every switch off.
    fn default() -> (features: Self)
        ensures
            forall|index: int| 0 <= index < DESCRIPTOR_INDEXING_FEATURE_COUNT ==> features@[index] == FALSE,
    {
        DescriptorIndexingFeatures {
            shader_input_attachment_array_dynamic_indexing: FALSE,
            shader_uniform_texel_buffer_array_dynamic_indexing: FALSE,
            shader_storage_texel_buffer_array_dynamic_indexing: FALSE,
            shader_uniform_buffer_array_non_uniform_indexing: FALSE,
            shader_sampled_image_array_non_uniform_indexing: FALSE,
            shader_storage_buffer_array_non_uniform_indexing: FALSE,
            shader_storage_image_array_non_uniform_indexing: FALSE,
            shader_input_attachment_array_non_uniform_indexing: FALSE,
            shader_uniform_texel_buffer_array_non_uniform_indexing: FALSE,
            shader_storage_texel_buffer_array_non_uniform_indexing: FALSE,
            descriptor_binding_uniform_buffer_update_after_bind: FALSE,
            descriptor_binding_sampled_image_update_after_bind: FALSE,
            descriptor_binding_storage_image_update_after_bind: FALSE,
            descriptor_binding_storage_buffer_update_after_bind: FALSE,
            descriptor_binding_uniform_texel_buffer_update_after_bind: FALSE,
            descriptor_binding_storage_texel_buffer_update_after_bind: FALSE,
            descriptor_binding_update_unused_while_pending: FALSE,
            descriptor_binding_partially_bound: FALSE,
            descriptor_binding_variable_descriptor_count: FALSE,
            runtime_descriptor_array: FALSE,
        }
    }
}

} // verus!
