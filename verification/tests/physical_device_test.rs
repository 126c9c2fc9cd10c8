use ash::vk;
use ccthw_ash_instance::{
    extension_names, CoreFeatures, DescriptorIndexingFeatures, DeviceProperties,
    ExtensionProperties, Extent3D, FeatureBlock, PhysicalDevice, PhysicalDeviceFeatures,
    PhysicalDeviceProperties, PropertiesBlock, QueueFamilyProperties, SparseProperties,
    Vulkan13Features, VulkanHandle, CORE_FEATURE_COUNT, DESCRIPTOR_INDEXING_FEATURE_COUNT,
    DESCRIPTOR_INDEXING_FEATURE_OFFSET, FALSE, FEATURE_COUNT, TRUE, VULKAN_13_FEATURE_COUNT,
    VULKAN_13_FEATURE_OFFSET,
};

fn device_name_buffer(name: &[u8]) -> [i8; 256] {
    let mut buffer = [0i8; 256];
    for (place, byte) in name.iter().enumerate() {
        buffer[place] = *byte as i8;
    }
    buffer
}

fn extension(name: &[u8], spec_version: u32) -> ExtensionProperties {
    ExtensionProperties { extension_name: device_name_buffer(name), spec_version }
}

fn properties_named(name: &[u8]) -> PhysicalDeviceProperties {
    PhysicalDeviceProperties::new(DeviceProperties {
        api_version: vk::API_VERSION_1_3,
        driver_version: 7,
        vendor_id: 0x10de,
        device_id: 0x2204,
        device_type: vk::PhysicalDeviceType::DISCRETE_GPU.as_raw(),
        device_name: device_name_buffer(name),
        pipeline_cache_uuid: [9u8; 16],
        limits: vk::PhysicalDeviceLimits::default(),
        sparse_properties: SparseProperties {
            residency_standard2_d_block_shape: FALSE,
            residency_standard2_d_multisample_block_shape: FALSE,
            residency_standard3_d_block_shape: FALSE,
            residency_aligned_mip_size: TRUE,
            residency_non_resident_strict: FALSE,
        },
    })
}

fn every_flag_on() -> PhysicalDeviceFeatures {
    let mut features = PhysicalDeviceFeatures::default();
    {
        let core = features.features_mut();
        core.robust_buffer_access = TRUE;
        core.full_draw_index_uint32 = TRUE;
        core.image_cube_array = TRUE;
        core.independent_blend = TRUE;
        core.geometry_shader = TRUE;
        core.tessellation_shader = TRUE;
        core.sample_rate_shading = TRUE;
        core.dual_src_blend = TRUE;
        core.logic_op = TRUE;
        core.multi_draw_indirect = TRUE;
        core.draw_indirect_first_instance = TRUE;
        core.depth_clamp = TRUE;
        core.depth_bias_clamp = TRUE;
        core.fill_mode_non_solid = TRUE;
        core.depth_bounds = TRUE;
        core.wide_lines = TRUE;
        core.large_points = TRUE;
        core.alpha_to_one = TRUE;
        core.multi_viewport = TRUE;
        core.sampler_anisotropy = TRUE;
        core.texture_compression_etc2 = TRUE;
        core.texture_compression_astc_ldr = TRUE;
        core.texture_compression_bc = TRUE;
        core.occlusion_query_precise = TRUE;
        core.pipeline_statistics_query = TRUE;
        core.vertex_pipeline_stores_and_atomics = TRUE;
        core.fragment_stores_and_atomics = TRUE;
        core.shader_tessellation_and_geometry_point_size = TRUE;
        core.shader_image_gather_extended = TRUE;
        core.shader_storage_image_extended_formats = TRUE;
        core.shader_storage_image_multisample = TRUE;
        core.shader_storage_image_read_without_format = TRUE;
        core.shader_storage_image_write_without_format = TRUE;
        core.shader_uniform_buffer_array_dynamic_indexing = TRUE;
        core.shader_sampled_image_array_dynamic_indexing = TRUE;
        core.shader_storage_buffer_array_dynamic_indexing = TRUE;
        core.shader_storage_image_array_dynamic_indexing = TRUE;
        core.shader_clip_distance = TRUE;
        core.shader_cull_distance = TRUE;
        core.shader_float64 = TRUE;
        core.shader_int64 = TRUE;
        core.shader_int16 = TRUE;
        core.shader_resource_residency = TRUE;
        core.shader_resource_min_lod = TRUE;
        core.sparse_binding = TRUE;
        core.sparse_residency_buffer = TRUE;
        core.sparse_residency_image2_d = TRUE;
        core.sparse_residency_image3_d = TRUE;
        core.sparse_residency2_samples = TRUE;
        core.sparse_residency4_samples = TRUE;
        core.sparse_residency8_samples = TRUE;
        core.sparse_residency16_samples = TRUE;
        core.sparse_residency_aliased = TRUE;
        core.variable_multisample_rate = TRUE;
        core.inherited_queries = TRUE;
    }
    {
        let block = features.vulkan_13_features_mut();
        block.robust_image_access = TRUE;
        block.inline_uniform_block = TRUE;
        block.descriptor_binding_inline_uniform_block_update_after_bind = TRUE;
        block.pipeline_creation_cache_control = TRUE;
        block.private_data = TRUE;
        block.shader_demote_to_helper_invocation = TRUE;
        block.shader_terminate_invocation = TRUE;
        block.subgroup_size_control = TRUE;
        block.compute_full_subgroups = TRUE;
        block.synchronization2 = TRUE;
        block.texture_compression_astc_hdr = TRUE;
        block.shader_zero_initialize_workgroup_memory = TRUE;
        block.dynamic_rendering = TRUE;
        block.shader_integer_dot_product = TRUE;
        block.maintenance4 = TRUE;
    }
    {
        let block = features.descriptor_indexing_features_mut();
        block.shader_input_attachment_array_dynamic_indexing = TRUE;
        block.shader_uniform_texel_buffer_array_dynamic_indexing = TRUE;
        block.shader_storage_texel_buffer_array_dynamic_indexing = TRUE;
        block.shader_uniform_buffer_array_non_uniform_indexing = TRUE;
        block.shader_sampled_image_array_non_uniform_indexing = TRUE;
        block.shader_storage_buffer_array_non_uniform_indexing = TRUE;
        block.shader_storage_image_array_non_uniform_indexing = TRUE;
        block.shader_input_attachment_array_non_uniform_indexing = TRUE;
        block.shader_uniform_texel_buffer_array_non_uniform_indexing = TRUE;
        block.shader_storage_texel_buffer_array_non_uniform_indexing = TRUE;
        block.descriptor_binding_uniform_buffer_update_after_bind = TRUE;
        block.descriptor_binding_sampled_image_update_after_bind = TRUE;
        block.descriptor_binding_storage_image_update_after_bind = TRUE;
        block.descriptor_binding_storage_buffer_update_after_bind = TRUE;
        block.descriptor_binding_uniform_texel_buffer_update_after_bind = TRUE;
        block.descriptor_binding_storage_texel_buffer_update_after_bind = TRUE;
        block.descriptor_binding_update_unused_while_pending = TRUE;
        block.descriptor_binding_partially_bound = TRUE;
        block.descriptor_binding_variable_descriptor_count = TRUE;
        block.runtime_descriptor_array = TRUE;
    }
    features
}

#[test]
pub fn feature_should_not_be_supported_by_default() {
    let mut desired_features = PhysicalDeviceFeatures::default();
    desired_features.features_mut().full_draw_index_uint32 = vk::TRUE;
    assert!(!desired_features.is_supported_by(&PhysicalDeviceFeatures::default()));
}

#[test]
pub fn feature_should_not_be_supported_when_explicitly_disabled() {
    let mut desired_features = PhysicalDeviceFeatures::default();
    desired_features.vulkan_13_features_mut().maintenance4 = vk::TRUE;

    let mut available_features = PhysicalDeviceFeatures::default();
    available_features.vulkan_13_features_mut().maintenance4 = vk::FALSE;

    assert!(!desired_features.is_supported_by(&available_features));
}

#[test]
pub fn features_should_be_supported_when_explicitly_enabled() {
    let mut desired_features = PhysicalDeviceFeatures::default();
    desired_features
        .descriptor_indexing_features_mut()
        .shader_input_attachment_array_dynamic_indexing = vk::TRUE;

    let mut available_features = PhysicalDeviceFeatures::default();
    available_features
        .descriptor_indexing_features_mut()
        .shader_input_attachment_array_dynamic_indexing = vk::TRUE;

    assert!(desired_features.is_supported_by(&available_features));
}

#[test]
pub fn switch_values_are_those_of_the_api() {
    assert_eq!(TRUE, vk::TRUE);
    assert_eq!(FALSE, vk::FALSE);
}

#[test]
pub fn default_record_has_every_switch_off() {
    let record = PhysicalDeviceFeatures::default();
    for index in 0..FEATURE_COUNT {
        assert_eq!(record.flag(index), Some(FALSE));
    }
    assert_eq!(record.flag(FEATURE_COUNT), None);
    assert_eq!(record.chain(), vec![FeatureBlock::Core]);
}

#[test]
pub fn block_sizes_add_up() {
    assert_eq!(CORE_FEATURE_COUNT, 55);
    assert_eq!(VULKAN_13_FEATURE_COUNT, 15);
    assert_eq!(DESCRIPTOR_INDEXING_FEATURE_COUNT, 20);
    assert_eq!(VULKAN_13_FEATURE_OFFSET, CORE_FEATURE_COUNT);
    assert_eq!(DESCRIPTOR_INDEXING_FEATURE_OFFSET, CORE_FEATURE_COUNT + VULKAN_13_FEATURE_COUNT);
    assert_eq!(FEATURE_COUNT, DESCRIPTOR_INDEXING_FEATURE_OFFSET + DESCRIPTOR_INDEXING_FEATURE_COUNT);
    assert_eq!(FEATURE_COUNT, 90);
}

#[test]
pub fn every_record_is_supported_by_itself() {
    let empty = PhysicalDeviceFeatures::default();
    assert!(empty.is_supported_by(&empty));

    let full = every_flag_on();
    assert!(full.is_supported_by(&full));

    let mut some = PhysicalDeviceFeatures::default();
    some.features_mut().geometry_shader = TRUE;
    some.vulkan_13_features_mut().dynamic_rendering = TRUE;
    some.descriptor_indexing_features_mut().runtime_descriptor_array = TRUE;
    assert!(some.is_supported_by(&some));
}

#[test]
pub fn empty_record_supports_only_records_without_a_switch_on() {
    let empty = PhysicalDeviceFeatures::default();
    assert!(PhysicalDeviceFeatures::default().is_supported_by(&empty));

    let mut first = PhysicalDeviceFeatures::default();
    first.features_mut().robust_buffer_access = TRUE;
    assert!(!first.is_supported_by(&empty));

    let mut last = PhysicalDeviceFeatures::default();
    last.descriptor_indexing_features_mut().runtime_descriptor_array = TRUE;
    assert!(!last.is_supported_by(&empty));

    assert!(!every_flag_on().is_supported_by(&empty));
}

#[test]
pub fn full_record_supports_every_record() {
    let full = every_flag_on();
    for index in 0..FEATURE_COUNT {
        assert_eq!(full.flag(index), Some(TRUE));
    }
    assert!(PhysicalDeviceFeatures::default().is_supported_by(&full));
    assert!(every_flag_on().is_supported_by(&full));

    let mut some = PhysicalDeviceFeatures::default();
    some.features_mut().shader_int64 = TRUE;
    some.vulkan_13_features_mut().synchronization2 = TRUE;
    assert!(some.is_supported_by(&full));
}

#[test]
pub fn a_device_that_offers_more_is_supported() {
    let mut desired = PhysicalDeviceFeatures::default();
    desired.features_mut().geometry_shader = TRUE;

    let mut available = PhysicalDeviceFeatures::default();
    available.features_mut().geometry_shader = TRUE;
    available.features_mut().tessellation_shader = TRUE;
    available.vulkan_13_features_mut().maintenance4 = TRUE;

    assert!(desired.is_supported_by(&available));
    assert!(!available.is_supported_by(&desired));
}

#[test]
pub fn only_true_against_false_is_unsupported() {
    let mut desired = PhysicalDeviceFeatures::default();
    desired.features_mut().logic_op = 2;
    assert!(desired.is_supported_by(&PhysicalDeviceFeatures::default()));

    let mut desired = PhysicalDeviceFeatures::default();
    desired.features_mut().logic_op = TRUE;
    let mut available = PhysicalDeviceFeatures::default();
    available.features_mut().logic_op = 2;
    assert!(desired.is_supported_by(&available));
}

#[test]
pub fn first_unsupported_is_the_lowest_position() {
    let mut desired = PhysicalDeviceFeatures::default();
    desired.descriptor_indexing_features_mut().runtime_descriptor_array = TRUE;
    desired.vulkan_13_features_mut().maintenance4 = TRUE;
    desired.features_mut().inherited_queries = TRUE;
    let empty = PhysicalDeviceFeatures::default();
    assert_eq!(desired.first_unsupported(&empty), Some(54));

    let mut available = PhysicalDeviceFeatures::default();
    available.features_mut().inherited_queries = TRUE;
    assert_eq!(desired.first_unsupported(&available), Some(69));

    available.vulkan_13_features_mut().maintenance4 = TRUE;
    assert_eq!(desired.first_unsupported(&available), Some(89));

    available.descriptor_indexing_features_mut().runtime_descriptor_array = TRUE;
    assert_eq!(desired.first_unsupported(&available), None);
    assert!(desired.is_supported_by(&available));
}

#[test]
pub fn flags_are_read_in_the_order_of_the_blocks() {
    let mut record = PhysicalDeviceFeatures::default();
    record.features_mut().robust_buffer_access = 11;
    record.features_mut().full_draw_index_uint32 = 12;
    record.features_mut().inherited_queries = 13;
    record.vulkan_13_features_mut().robust_image_access = 21;
    record.vulkan_13_features_mut().maintenance4 = 22;
    record.descriptor_indexing_features_mut().shader_input_attachment_array_dynamic_indexing = 31;
    record.descriptor_indexing_features_mut().runtime_descriptor_array = 32;

    assert_eq!(record.flag(0), Some(11));
    assert_eq!(record.flag(1), Some(12));
    assert_eq!(record.flag(54), Some(13));
    assert_eq!(record.flag(55), Some(21));
    assert_eq!(record.flag(69), Some(22));
    assert_eq!(record.flag(70), Some(31));
    assert_eq!(record.flag(89), Some(32));
    assert_eq!(record.flag(90), None);

    assert_eq!(record.features().flag(54), Some(13));
    assert_eq!(record.features().flag(55), None);
    assert_eq!(record.vulkan_13_features().flag(14), Some(22));
    assert_eq!(record.vulkan_13_features().flag(15), None);
    assert_eq!(record.descriptor_indexing_features().flag(19), Some(32));
    assert_eq!(record.descriptor_indexing_features().flag(20), None);
}

#[test]
pub fn flags_have_their_names() {
    assert_eq!(PhysicalDeviceFeatures::flag_name(0), Some("robust_buffer_access"));
    assert_eq!(PhysicalDeviceFeatures::flag_name(1), Some("full_draw_index_uint32"));
    assert_eq!(PhysicalDeviceFeatures::flag_name(54), Some("inherited_queries"));
    assert_eq!(PhysicalDeviceFeatures::flag_name(55), Some("robust_image_access"));
    assert_eq!(PhysicalDeviceFeatures::flag_name(69), Some("maintenance4"));
    assert_eq!(
        PhysicalDeviceFeatures::flag_name(70),
        Some("shader_input_attachment_array_dynamic_indexing")
    );
    assert_eq!(PhysicalDeviceFeatures::flag_name(89), Some("runtime_descriptor_array"));
    assert_eq!(PhysicalDeviceFeatures::flag_name(90), None);

    assert_eq!(CoreFeatures::flag_name(46), Some("sparse_residency_image2_d"));
    assert_eq!(CoreFeatures::flag_name(55), None);
    assert_eq!(Vulkan13Features::flag_name(9), Some("synchronization2"));
    assert_eq!(Vulkan13Features::flag_name(15), None);
    assert_eq!(
        DescriptorIndexingFeatures::flag_name(17),
        Some("descriptor_binding_partially_bound")
    );
    assert_eq!(DescriptorIndexingFeatures::flag_name(20), None);

    assert_eq!(PhysicalDeviceFeatures::flag_block(0), Some(FeatureBlock::Core));
    assert_eq!(PhysicalDeviceFeatures::flag_block(54), Some(FeatureBlock::Core));
    assert_eq!(PhysicalDeviceFeatures::flag_block(55), Some(FeatureBlock::Vulkan13));
    assert_eq!(PhysicalDeviceFeatures::flag_block(69), Some(FeatureBlock::Vulkan13));
    assert_eq!(PhysicalDeviceFeatures::flag_block(70), Some(FeatureBlock::DescriptorIndexing));
    assert_eq!(PhysicalDeviceFeatures::flag_block(89), Some(FeatureBlock::DescriptorIndexing));
    assert_eq!(PhysicalDeviceFeatures::flag_block(90), None);
}

#[test]
pub fn rejection_names_the_first_unsupported_switch() {
    let empty = PhysicalDeviceFeatures::default();
    assert_eq!(empty.rejection_message(&empty), None);

    let mut desired = PhysicalDeviceFeatures::default();
    desired.descriptor_indexing_features_mut().runtime_descriptor_array = TRUE;
    assert_eq!(
        desired.rejection_message(&empty),
        Some("descriptor_indexing_features - runtime_descriptor_array is not supported".to_owned())
    );

    desired.vulkan_13_features_mut().dynamic_rendering = TRUE;
    assert_eq!(
        desired.rejection_message(&empty),
        Some("maintenence4 - dynamic_rendering is not supported".to_owned())
    );

    desired.features_mut().full_draw_index_uint32 = TRUE;
    assert_eq!(
        desired.rejection_message(&empty),
        Some("physical_device_features - full_draw_index_uint32 is not supported".to_owned())
    );

    assert_eq!(PhysicalDeviceFeatures::unsupported_flag_message(90), None);
}

#[test]
pub fn linking_chains_the_blocks_and_keeps_the_switches() {
    let mut record = PhysicalDeviceFeatures::default();
    record.features_mut().geometry_shader = TRUE;
    record.vulkan_13_features_mut().maintenance4 = TRUE;
    let before: Vec<Option<u32>> = (0..FEATURE_COUNT).map(|index| record.flag(index)).collect();

    assert_eq!(record.chain(), vec![FeatureBlock::Core]);
    assert_eq!(record.link_p_next_chain(), FeatureBlock::Core);
    assert_eq!(
        record.chain(),
        vec![FeatureBlock::Core, FeatureBlock::DescriptorIndexing, FeatureBlock::Vulkan13]
    );
    let after: Vec<Option<u32>> = (0..FEATURE_COUNT).map(|index| record.flag(index)).collect();
    assert_eq!(before, after);

    assert_eq!(record.link_p_next_chain(), FeatureBlock::Core);
    assert_eq!(
        record.chain(),
        vec![FeatureBlock::Core, FeatureBlock::DescriptorIndexing, FeatureBlock::Vulkan13]
    );

    let copy = record;
    assert_eq!(copy.chain(), record.chain());
}

#[test]
pub fn record_is_built_from_its_blocks() {
    let mut core = CoreFeatures::default();
    core.wide_lines = TRUE;
    let mut indexing = DescriptorIndexingFeatures::default();
    indexing.descriptor_binding_partially_bound = TRUE;
    let mut version_13 = Vulkan13Features::default();
    version_13.private_data = TRUE;

    let record = PhysicalDeviceFeatures::from_blocks(core, indexing, version_13);
    assert_eq!(*record.features(), core);
    assert_eq!(*record.descriptor_indexing_features(), indexing);
    assert_eq!(*record.vulkan_13_features(), version_13);
    assert_eq!(record.chain(), vec![FeatureBlock::Core]);
    assert_eq!(record.flag(15), Some(TRUE));
    assert_eq!(record.flag(59), Some(TRUE));
    assert_eq!(record.flag(87), Some(TRUE));
}

#[test]
pub fn devices_are_picked_by_their_features() {
    let mut required = PhysicalDeviceFeatures::default();
    required.features_mut().geometry_shader = TRUE;
    required.vulkan_13_features_mut().synchronization2 = TRUE;

    let none = PhysicalDeviceFeatures::default();
    let mut half = PhysicalDeviceFeatures::default();
    half.features_mut().geometry_shader = TRUE;
    let mut exact = half;
    exact.vulkan_13_features_mut().synchronization2 = TRUE;
    let full = every_flag_on();

    assert_eq!(
        PhysicalDevice::supported_devices(&required, &[none, exact, half, full, exact]),
        vec![1, 3, 4]
    );
    assert_eq!(PhysicalDevice::supported_devices(&required, &[none, half]), Vec::<usize>::new());
    assert_eq!(PhysicalDevice::supported_devices(&required, &[]), Vec::<usize>::new());
}

#[test]
pub fn no_requirement_picks_every_device() {
    let required = PhysicalDeviceFeatures::default();
    let mut some = PhysicalDeviceFeatures::default();
    some.features_mut().depth_clamp = TRUE;
    let devices = [PhysicalDeviceFeatures::default(), some, every_flag_on()];

    assert_eq!(PhysicalDevice::supported_devices(&required, &devices), vec![0, 1, 2]);
    assert_eq!(PhysicalDevice::supported_devices(&required, &[]), Vec::<usize>::new());
}

#[test]
pub fn device_describes_what_the_driver_reported() {
    let mut required = PhysicalDeviceFeatures::default();
    required.features_mut().geometry_shader = TRUE;
    let extensions = vec![
        extension(b"VK_KHR_swapchain", 70),
        extension(&[0xff, 0xfe], 1),
        extension(b"VK_KHR_maintenance1", 2),
        extension(b"", 3),
    ];
    let families = vec![
        QueueFamilyProperties {
            queue_flags: (vk::QueueFlags::GRAPHICS | vk::QueueFlags::COMPUTE).as_raw(),
            queue_count: 16,
            timestamp_valid_bits: 64,
            min_image_transfer_granularity: Extent3D { width: 1, height: 1, depth: 1 },
        },
        QueueFamilyProperties {
            queue_flags: vk::QueueFlags::TRANSFER.as_raw(),
            queue_count: 2,
            timestamp_valid_bits: 0,
            min_image_transfer_granularity: Extent3D { width: 8, height: 8, depth: 1 },
        },
    ];
    let device = PhysicalDevice::new(
        0xdead_beef,
        properties_named(b"Test Adapter 9000"),
        required,
        extensions,
        families.clone(),
    );

    assert_eq!(*device.raw(), 0xdead_beef);
    assert_eq!(device.name().unwrap(), "Test Adapter 9000");
    assert_eq!(device.properties().properties().vendor_id, 0x10de);
    assert_eq!(device.properties().properties().pipeline_cache_uuid, [9u8; 16]);
    assert_eq!(device.features().flag(4), Some(TRUE));
    assert!(device.features().is_supported_by(&required));
    assert!(required.is_supported_by(device.features()));
    assert_eq!(device.queue_family_properties(), &families[..]);
    assert_eq!(device.available_extensions().len(), 4);
    assert_eq!(device.available_extensions()[0].spec_version, 70);
    assert_eq!(device.available_extensions()[2].spec_version, 2);
    assert_eq!(
        device.available_extension_names(),
        &["VK_KHR_swapchain".to_owned(), "VK_KHR_maintenance1".to_owned(), String::new()][..]
    );

    let copy = device.clone();
    assert_eq!(*copy.raw(), *device.raw());
    assert_eq!(copy.name().unwrap(), "Test Adapter 9000");
    assert_eq!(copy.available_extension_names(), device.available_extension_names());
    assert_eq!(copy.queue_family_properties(), device.queue_family_properties());
}

#[test]
pub fn device_name_that_is_not_text_is_an_error() {
    let device = PhysicalDevice::new(
        1,
        properties_named(&[b'G', b'P', 0xc3]),
        PhysicalDeviceFeatures::default(),
        vec![],
        vec![],
    );
    assert!(device.name().is_err());
    assert!(device.available_extension_names().is_empty());
}

#[test]
pub fn properties_can_be_changed_in_place() {
    let mut properties = properties_named(b"Before");
    properties.properties_mut().device_name = device_name_buffer(b"After");
    properties.properties_mut().device_id = 5;
    assert_eq!(properties.properties().device_id, 5);
    let device =
        PhysicalDevice::new(2, properties, PhysicalDeviceFeatures::default(), vec![], vec![]);
    assert_eq!(device.name().unwrap(), "After");
}

#[test]
pub fn linking_properties_gives_the_head_and_changes_nothing() {
    let mut properties = properties_named(b"Linked");
    let before = *properties.properties();
    assert_eq!(properties.link_p_next_chain(), PropertiesBlock::Core);
    assert_eq!(properties.link_p_next_chain(), PropertiesBlock::Core);
    assert_eq!(properties.properties().device_name, before.device_name);
    assert_eq!(properties.properties().device_id, before.device_id);
    assert_eq!(properties.properties().api_version, before.api_version);
    assert_eq!(properties.properties().pipeline_cache_uuid, before.pipeline_cache_uuid);
    assert_eq!(properties.properties().sparse_properties, before.sparse_properties);
}

#[test]
pub fn extension_names_pass_over_what_is_not_text() {
    let extensions = [
        extension(b"one", 1),
        extension(&[0xff], 2),
        extension(b"two", 3),
        extension(b"", 4),
    ];
    assert_eq!(
        extension_names(&extensions),
        vec!["one".to_owned(), "two".to_owned(), String::new()]
    );
    assert_eq!(extension_names(&[]), Vec::<String>::new());
}
