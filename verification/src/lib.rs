//! Verified negotiation logic for bringing up a Vulkan instance, choosing a
//! physical device by its capabilities and describing the logical device to
//! open on it.
//!
//! The library decides; the calls into the driver are made by its user, who
//! hands the library what the driver reported as plain values.

use vstd::prelude::*;

mod error;
mod ffi;
mod logical_device;
mod physical_device;
mod vulkan_instance;

pub use self::error::{InstanceError, InstanceResult};
pub use self::ffi::{
    byte_of, decoded_names, is_name_end, lemma_decoded_names_push, lemma_name_end_unique,
    lemma_name_round_trip, name_bytes, name_len, name_text, nul_terminated, push_name,
    string_from_i8, to_nul_terminated,
};
pub use self::logical_device::{
    clone_names, DeviceCreateInfo, FeatureRequest, LogicalDevice, QueueFamilyInfo,
};
pub use self::physical_device::{
    block_label, every_flag_is, first_unsupported_at, flag_supported, flags_supported,
    unsupported_flag_text, CoreFeatures, DescriptorIndexingFeatures, FeatureBlock,
    PhysicalDeviceFeatures, Vulkan13Features,
    CORE_FEATURE_COUNT, DESCRIPTOR_INDEXING_FEATURE_COUNT, DESCRIPTOR_INDEXING_FEATURE_OFFSET,
    FEATURE_COUNT, VULKAN_13_FEATURE_COUNT, VULKAN_13_FEATURE_OFFSET,
};
pub use self::physical_device::{
    device_places, extension_name_buffers, extension_names, feature_views,
    lemma_no_requirement_selects_all, supported_places, DeviceProperties, ExtensionProperties,
    Extent3D, PhysicalDevice, PhysicalDeviceProperties, PropertiesBlock, QueueFamilyProperties,
    SparseProperties, MAX_EXTENSION_NAME_SIZE, MAX_PHYSICAL_DEVICE_NAME_SIZE, UUID_SIZE,
};

pub use self::vulkan_instance::{
    contains_name, find_missing, layer_name_buffers, lemma_missing_names_exact, missing_names,
    teardown_order, ApplicationInfo, DebugSubscription, InstanceCreateInfo, LayerProperties,
    TeardownStep, VulkanInstance, APPLICATION_NAME, ENGINE_NAME, MAX_DESCRIPTION_SIZE,
};
pub use self::vulkan_instance::{
    break_after_semicolons, compose_debug_message, debug_message, debug_message_head,
    debug_message_text, debug_messenger_config, decimal_digits, decimal_text, digit_char,
    is_known_severity, level_of_severity, log_level, mark_unknown_severity,
    message_type_flags_text, push_decimal, severity_flags_text, sink_text,
    with_breaks_after_semicolons, DebugMessage, DebugMessengerConfig, LogLevel,
    MESSAGE_TYPE_GENERAL, MESSAGE_TYPE_PERFORMANCE, MESSAGE_TYPE_VALIDATION, SEVERITY_ERROR,
    SEVERITY_INFO, SEVERITY_VERBOSE, SEVERITY_WARNING,
};

verus! {

/// Types which implement this trait can provide the raw resource handle by
/// which the driver knows them.
///
/// The handle is lent, not given: whoever takes a copy of it must see that the
/// copy does not outlive the value that it was taken from.
pub trait VulkanHandle {
    type Handle;

    /// The handle that `raw` lends.
    spec fn spec_raw(&self) -> Self::Handle;

    /// Get the raw resource handle.
    fn raw(&self) -> (handle: &Self::Handle)
        ensures
            *handle == self.spec_raw(),
    ;
}

/// A switch as the API stores it: `TRUE` or `FALSE` in 32 bits.
pub type Bool32 = u32;

/// The value of a switch that is on.
pub const TRUE: Bool32 = 1;

/// The value of a switch that is off.
pub const FALSE: Bool32 = 0;

} // verus!
