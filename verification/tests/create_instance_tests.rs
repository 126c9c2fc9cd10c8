use ash::vk;
use ccthw_ash_instance::{
    contains_name, find_missing, ExtensionProperties, InstanceError, LayerProperties,
    VulkanInstance, APPLICATION_NAME, ENGINE_NAME,
};

fn name_buffer(name: &[u8]) -> [i8; 256] {
    let mut buffer = [0i8; 256];
    for (place, byte) in name.iter().enumerate() {
        buffer[place] = *byte as i8;
    }
    buffer
}

fn offered_extension(name: &[u8]) -> ExtensionProperties {
    ExtensionProperties { extension_name: name_buffer(name), spec_version: 1 }
}

fn offered_layer(name: &[u8]) -> LayerProperties {
    LayerProperties {
        layer_name: name_buffer(name),
        spec_version: vk::API_VERSION_1_3,
        implementation_version: 1,
        description: name_buffer(b"a layer"),
    }
}

fn offered_extensions() -> Vec<ExtensionProperties> {
    vec![
        offered_extension(b"VK_KHR_surface"),
        offered_extension(b"VK_EXT_debug_utils"),
        offered_extension(&[0xff, 0xff]),
        offered_extension(b"VK_KHR_get_physical_device_properties2"),
    ]
}

fn offered_layers() -> Vec<LayerProperties> {
    vec![offered_layer(b"VK_LAYER_KHRONOS_validation"), offered_layer(b"VK_LAYER_MESA_overlay")]
}

#[test]
pub fn missing_extensions_should_fail() {
    let required = VulkanInstance::with_additional_extensions(
        &["bogus_extension_name".to_owned()],
        true,
    );
    let checked = VulkanInstance::check_extensions(Ok(offered_extensions()), &required);
    match checked {
        Err(InstanceError::MissingExtensions(extensions)) => {
            assert!(extensions.contains(&"bogus_extension_name".to_owned()));
            assert_eq!(extensions, vec!["bogus_extension_name".to_owned()]);
        }
        other => panic!("expected missing extensions, got {:?}", other),
    }
}

#[test]
pub fn missing_layers_should_fail() {
    let checked =
        VulkanInstance::check_layers(Ok(offered_layers()), &["bogus_layer_name".to_owned()]);
    match checked {
        Err(e) => match e {
            InstanceError::MissingLayers(missing_layers) => {
                assert!(missing_layers.contains(&"bogus_layer_name".to_owned()));
                assert_eq!(missing_layers, vec!["bogus_layer_name".to_owned()]);
            }
            other => panic!("expected missing layers, got {:?}", other),
        },
        Ok(()) => panic!("expected missing layers"),
    }
}

#[test]
pub fn no_requirement_is_met_by_any_driver() {
    assert!(VulkanInstance::check_extensions(Ok(vec![]), &[]).is_ok());
    assert!(VulkanInstance::check_layers(Ok(vec![]), &[]).is_ok());
    assert!(VulkanInstance::check_extensions(Ok(offered_extensions()), &[]).is_ok());
    assert!(VulkanInstance::check_layers(Ok(offered_layers()), &[]).is_ok());
}

#[test]
pub fn offered_extensions_are_not_missing() {
    let required = vec![
        "VK_KHR_get_physical_device_properties2".to_owned(),
        "VK_KHR_surface".to_owned(),
    ];
    assert!(VulkanInstance::check_extensions(Ok(offered_extensions()), &required).is_ok());
    let required = VulkanInstance::with_additional_extensions(&required, true);
    assert!(VulkanInstance::check_extensions(Ok(offered_extensions()), &required).is_ok());
}

#[test]
pub fn only_the_missing_extensions_are_reported_in_their_order() {
    let required = vec![
        "zeta".to_owned(),
        "VK_KHR_surface".to_owned(),
        "alpha".to_owned(),
        "VK_EXT_debug_utils".to_owned(),
        "zeta".to_owned(),
    ];
    match VulkanInstance::check_extensions(Ok(offered_extensions()), &required) {
        Err(InstanceError::MissingExtensions(extensions)) => {
            assert_eq!(extensions, vec!["zeta".to_owned(), "alpha".to_owned(), "zeta".to_owned()]);
        }
        other => panic!("expected missing extensions, got {:?}", other),
    }
}

#[test]
pub fn only_the_missing_layers_are_reported_in_their_order() {
    let required = vec![
        "VK_LAYER_MESA_overlay".to_owned(),
        "second".to_owned(),
        "first".to_owned(),
        "VK_LAYER_KHRONOS_validation".to_owned(),
    ];
    match VulkanInstance::check_layers(Ok(offered_layers()), &required) {
        Err(InstanceError::MissingLayers(layers)) => {
            assert_eq!(layers, vec!["second".to_owned(), "first".to_owned()]);
        }
        other => panic!("expected missing layers, got {:?}", other),
    }
}

#[test]
pub fn debug_extension_is_missing_where_the_driver_lacks_it() {
    let required = VulkanInstance::with_additional_extensions(&["VK_KHR_surface".to_owned()], true);
    let offered = vec![offered_extension(b"VK_KHR_surface")];
    match VulkanInstance::check_extensions(Ok(offered), &required) {
        Err(InstanceError::MissingExtensions(extensions)) => {
            assert_eq!(extensions, vec!["VK_EXT_debug_utils".to_owned()]);
        }
        other => panic!("expected missing extensions, got {:?}", other),
    }
}

#[test]
pub fn name_that_is_not_text_offers_nothing() {
    let offered = vec![offered_extension(&[b'a', 0xff])];
    match VulkanInstance::check_extensions(Ok(offered), &["a".to_owned()]) {
        Err(InstanceError::MissingExtensions(extensions)) => {
            assert_eq!(extensions, vec!["a".to_owned()]);
        }
        other => panic!("expected missing extensions, got {:?}", other),
    }
}

#[test]
pub fn driver_error_is_handed_on() {
    let checked = VulkanInstance::check_extensions(
        Err(vk::Result::ERROR_OUT_OF_HOST_MEMORY),
        &["bogus_extension_name".to_owned()],
    );
    assert!(matches!(
        checked,
        Err(InstanceError::UnexpectedVulkanError(vk::Result::ERROR_OUT_OF_HOST_MEMORY))
    ));

    let checked = VulkanInstance::check_layers(Err(vk::Result::ERROR_LAYER_NOT_PRESENT), &[]);
    assert!(matches!(
        checked,
        Err(InstanceError::UnexpectedVulkanError(vk::Result::ERROR_LAYER_NOT_PRESENT))
    ));
}

#[test]
pub fn errors_wrap_what_the_driver_reported() {
    assert!(matches!(
        InstanceError::from(vk::Result::ERROR_DEVICE_LOST),
        InstanceError::UnexpectedVulkanError(vk::Result::ERROR_DEVICE_LOST)
    ));
    assert!(matches!(
        InstanceError::from(vk::Result::SUCCESS),
        InstanceError::UnexpectedVulkanError(vk::Result::SUCCESS)
    ));
}

#[test]
pub fn debug_extension_is_added_only_with_instrumentation() {
    let required = vec!["VK_KHR_surface".to_owned(), "VK_KHR_display".to_owned()];
    assert_eq!(VulkanInstance::with_additional_extensions(&required, false), required);
    assert_eq!(
        VulkanInstance::with_additional_extensions(&required, true),
        vec![
            "VK_KHR_surface".to_owned(),
            "VK_KHR_display".to_owned(),
            "VK_EXT_debug_utils".to_owned()
        ]
    );
    assert_eq!(VulkanInstance::with_additional_extensions(&[], false), Vec::<String>::new());
    assert_eq!(
        VulkanInstance::with_additional_extensions(&[], true),
        vec![ash::extensions::ext::DebugUtils::name().to_str().unwrap().to_owned()]
    );
}

#[test]
pub fn names_are_found_and_missed() {
    let names = vec!["a".to_owned(), "b".to_owned()];
    assert!(contains_name(&names, &"a".to_owned()));
    assert!(contains_name(&names, &"b".to_owned()));
    assert!(!contains_name(&names, &"c".to_owned()));
    assert!(!contains_name(&names, &"".to_owned()));
    assert!(!contains_name(&[], &"a".to_owned()));

    assert_eq!(find_missing(&names, &names), Vec::<String>::new());
    assert_eq!(find_missing(&names, &[]), names);
    assert_eq!(find_missing(&[], &names), Vec::<String>::new());
    assert_eq!(find_missing(&names, &["b".to_owned()]), vec!["a".to_owned()]);
}

#[test]
pub fn create_info_describes_the_instance() {
    let extensions = vec!["VK_KHR_surface".to_owned(), "VK_EXT_debug_utils".to_owned()];
    let layers = vec!["VK_LAYER_KHRONOS_validation".to_owned()];
    let info = VulkanInstance::create_info(&extensions, &layers);

    assert_eq!(info.application_info.application_name, "ash starter");
    assert_eq!(info.application_info.application_name, APPLICATION_NAME);
    assert_eq!(info.application_info.engine_name, "no engine");
    assert_eq!(info.application_info.engine_name, ENGINE_NAME);
    assert_eq!(info.application_info.application_version, 0x0040_0000);
    assert_eq!(info.application_info.application_version, vk::make_api_version(0, 1, 0, 0));
    assert_eq!(info.application_info.engine_version, vk::make_api_version(0, 1, 0, 0));
    assert_eq!(info.application_info.api_version, 0x0040_3000);
    assert_eq!(info.application_info.api_version, vk::API_VERSION_1_3);
    assert_eq!(info.enabled_extension_names, &extensions[..]);
    assert_eq!(info.enabled_extension_count, 2);
    assert_eq!(info.enabled_layer_names, &layers[..]);
    assert_eq!(info.enabled_layer_count, 1);

    let info = VulkanInstance::create_info(&[], &[]);
    assert_eq!(info.enabled_extension_count, 0);
    assert_eq!(info.enabled_layer_count, 0);
    assert!(info.enabled_extension_names.is_empty());
    assert!(info.enabled_layer_names.is_empty());
}
