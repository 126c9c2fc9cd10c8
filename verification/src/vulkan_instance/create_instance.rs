use vstd::prelude::*;

use crate::ffi::{decoded_names, lemma_decoded_names_push, push_name};
use crate::{
    extension_name_buffers, extension_names, ExtensionProperties, InstanceError, InstanceResult,
    VulkanInstance, MAX_EXTENSION_NAME_SIZE,
};

verus! {

/// The width of the buffer that holds the description of a layer.
pub const MAX_DESCRIPTION_SIZE: usize = 256;

/// The name under which the instance is made known to the driver.
pub const APPLICATION_NAME: &'static str = "ash starter";

/// The name of the engine under which the instance is made known to the
/// driver.
pub const ENGINE_NAME: &'static str = "no engine";

/// A layer as the driver reports it.
#[derive(Copy, Clone, Debug)]
pub struct LayerProperties {
    /// The name of the layer: fixed in width, padded with NUL.
    pub layer_name: [i8; MAX_EXTENSION_NAME_SIZE],
    /// The version of the API that the layer was written for, packed.
    pub spec_version: u32,
    /// The version of the layer.
    pub implementation_version: u32,
    /// What the layer is for: fixed in width, padded with NUL.
    pub description: [i8; MAX_DESCRIPTION_SIZE],
}

/// How the application makes itself known to the driver.
#[derive(Copy, Clone, Debug)]
pub struct ApplicationInfo {
    /// The name of the application.
    pub application_name: &'static str,
    /// The version of the application, packed.
    pub application_version: u32,
    /// The name of the engine.
    pub engine_name: &'static str,
    /// The version of the engine, packed.
    pub engine_version: u32,
    /// The version of the API that the application uses, packed.
    pub api_version: u32,
}

/// What the driver is asked for when an instance is created, as plain values.
///
/// The request borrows the names that it was made from, so none of them
/// changes or goes away while the request is in use.
#[derive(Copy, Clone, Debug)]
pub struct InstanceCreateInfo<'a> {
    /// How the application makes itself known.
    pub application_info: ApplicationInfo,
    /// The names of the layers to enable.
    pub enabled_layer_names: &'a [String],
    /// The number of layers to enable, as the driver's 32 bits hold it.
    pub enabled_layer_count: u32,
    /// The names of the extensions to enable.
    pub enabled_extension_names: &'a [String],
    /// The number of extensions to enable, as the driver's 32 bits hold it.
    pub enabled_extension_count: u32,
}

/// ash's `DebugUtils::name` returns the name of the extension for debug
/// messages, which is `VK_EXT_debug_utils`.
#[verifier::external_body]
fn debug_utils_extension_name() -> (name: String)
    ensures
        name@ == "VK_EXT_debug_utils"@,
{
    ash::extensions::ext::DebugUtils::name().to_string_lossy().into_owned()
}

/// ash's `make_api_version` packs the four parts of a version into 32 bits:
/// the variant from bit 29 on, the major version from bit 22 on, the minor
/// version from bit 12 on, the patch in the lowest bits.
#[verifier::external_body]
fn make_api_version(variant: u32, major: u32, minor: u32, patch: u32) -> (version: u32)
    ensures
        version == (variant << 29) | (major << 22) | (minor << 12) | patch,
{
    ash::vk::make_api_version(variant, major, minor, patch)
}

/// The name buffers of a list of layers, in the order of the list.
pub open spec fn layer_name_buffers(layers: Seq<LayerProperties>) -> Seq<Seq<i8>> {
    layers.map_values(|layer: LayerProperties| layer.layer_name@)
}

/// The names of `required` that are not among `available`, in the order of
/// `required`.
pub open spec fn missing_names(required: Seq<Seq<char>>, available: Seq<Seq<char>>) -> Seq<
    Seq<char>,
> {
    required.filter(|name: Seq<char>| !available.contains(name))
}

/// A name is reported missing exactly if it is asked for and not available.
pub proof fn lemma_missing_names_exact(
    required: Seq<Seq<char>>,
    available: Seq<Seq<char>>,
    name: Seq<char>,
)
    ensures
        missing_names(required, available).contains(name) <==> required.contains(name)
            && !available.contains(name),
{
    broadcast use vstd::seq_lib::group_filter_ensures;

    let absent = |name: Seq<char>| !available.contains(name);
    if missing_names(required, available).contains(name) {
        required.lemma_filter_contains_rev(absent, name);
        let place = choose|place: int|
            0 <= place < required.filter(absent).len() && required.filter(absent)[place] == name;
        assert(absent(required.filter(absent)[place]));
    }
    if required.contains(name) && !available.contains(name) {
        let place = choose|place: int| 0 <= place < required.len() && required[place] == name;
        assert(absent(required[place]));
        assert(required.filter(absent).contains(required[place]));
    }
}

/// Whether `name` is among `names`.
pub fn contains_name(names: &[String], name: &String) -> (found: bool)
    ensures
        found == names.deep_view().contains(name@),
{
    let mut index: usize = 0;
    while index < names.len()
        invariant
            index <= names@.len(),
            forall|earlier: int| 0 <= earlier < index ==> names.deep_view()[earlier] != name@,
        decreases names@.len() - index,
    {
        if names[index] == *name {
            assert(names.deep_view()[index as int] == name@);
            return true;
        }
        index += 1;
    }
    false
}

/// The names of `required` that are not among `available`, in the order of
/// `required`.
pub fn find_missing(required: &[String], available: &[String]) -> (missing: Vec<String>)
    ensures
        missing.deep_view() == missing_names(required.deep_view(), available.deep_view()),
{
    let ghost wanted = required.deep_view();
    let ghost absent = |name: Seq<char>| !available.deep_view().contains(name);
    let mut missing: Vec<String> = Vec::new();
    let mut index: usize = 0;
    proof {
        reveal(Seq::filter);
        assert(missing.deep_view() =~= wanted.take(0).filter(absent));
    }
    while index < required.len()
        invariant
            index <= required@.len(),
            wanted == required.deep_view(),
            absent == |name: Seq<char>| !available.deep_view().contains(name),
            missing.deep_view() == wanted.take(index as int).filter(absent),
        decreases required@.len() - index,
    {
        let ghost before = missing.deep_view();
        proof {
            reveal(Seq::filter);
            let longer = wanted.take(index + 1);
            assert(longer.drop_last() =~= wanted.take(index as int));
            assert(longer.last() == required@[index as int]@);
        }
        if !contains_name(available, &required[index]) {
            missing.push(required[index].clone());
            assert(missing.deep_view() =~= before.push(required@[index as int]@));
        }
        index += 1;
    }
    assert(wanted.take(index as int) =~= wanted);
    missing
}

impl VulkanInstance {
    /// The extensions to create the instance with: those that are asked for
    /// and, where debug instrumentation is on, the extension for debug
    /// messages after them.
    pub fn with_additional_extensions(
        required_extensions: &[String],
        debug_instrumentation: bool,
    ) -> (extensions: Vec<String>)
        ensures
            debug_instrumentation ==> extensions.deep_view()
                == required_extensions.deep_view().push("VK_EXT_debug_utils"@),
            !debug_instrumentation ==> extensions.deep_view() == required_extensions.deep_view(),
    {
        let mut extensions = crate::clone_names(required_extensions);
        if debug_instrumentation {
            let ghost before = extensions.deep_view();
            extensions.push(debug_utils_extension_name());
            assert(extensions.deep_view() =~= before.push("VK_EXT_debug_utils"@));
        }
        extensions
    }

    /// Check that all required extensions are available.
    ///
    /// `available` is what the driver answered when it was asked for the
    /// extensions that it offers. An extension whose name is not valid UTF-8
    /// offers nothing.
    ///
    /// Returns the driver's error if it reported one; else the names that are
    /// required and that the driver does not offer, if there are any, and no
    /// other names.
    pub fn check_extensions(
        available: Result<Vec<ExtensionProperties>, ash::vk::Result>,
        required_extensions: &[String],
    ) -> (checked: InstanceResult<()>)
        ensures
            available matches Err(code) ==> checked == Err::<(), InstanceError>(
                InstanceError::UnexpectedVulkanError(code),
            ),
            available matches Ok(extensions) ==> ({
                let missing = missing_names(
                    required_extensions.deep_view(),
                    decoded_names(extension_name_buffers(extensions@)),
                );
                &&& missing.len() == 0 ==> checked.is_ok()
                &&& missing.len() > 0 ==> (checked matches Err(InstanceError::MissingExtensions(names))
                    && names.deep_view() == missing)
            }),
    {
        let extensions = match available {
            Ok(extensions) => extensions,
            Err(code) => {
                return Err(InstanceError::from(code));
            },
        };
        let available_names = extension_names(extensions.as_slice());
        let names = available_names.as_slice();
        assert(names.deep_view() =~= available_names.deep_view());
        let missing_extensions = find_missing(required_extensions, names);
        if missing_extensions.len() != 0 {
            Err(InstanceError::MissingExtensions(missing_extensions))
        } else {
            Ok(())
        }
    }

    /// Check that all required layers are available.
    ///
    /// `available` is what the driver answered when it was asked for the
    /// layers that it offers. A layer whose name is not valid UTF-8 offers
    /// nothing.
    ///
    /// Returns the driver's error if it reported one; else the names that are
    /// required and that the driver does not offer, if there are any, and no
    /// other names.
    pub fn check_layers(
        available: Result<Vec<LayerProperties>, ash::vk::Result>,
        required_layers: &[String],
    ) -> (checked: InstanceResult<()>)
        ensures
            available matches Err(code) ==> checked == Err::<(), InstanceError>(
                InstanceError::UnexpectedVulkanError(code),
            ),
            available matches Ok(layers) ==> ({
                let missing = missing_names(
                    required_layers.deep_view(),
                    decoded_names(layer_name_buffers(layers@)),
                );
                &&& missing.len() == 0 ==> checked.is_ok()
                &&& missing.len() > 0 ==> (checked matches Err(InstanceError::MissingLayers(names))
                    && names.deep_view() == missing)
            }),
    {
        let layers = match available {
            Ok(layers) => layers,
            Err(code) => {
                return Err(InstanceError::from(code));
            },
        };
        let ghost buffers = layer_name_buffers(layers@);
        let mut available_names: Vec<String> = Vec::new();
        let mut index: usize = 0;
        assert(available_names.deep_view() =~= decoded_names(buffers.take(0)));
        while index < layers.len()
            invariant
                index <= layers@.len(),
                buffers == layer_name_buffers(layers@),
                available_names.deep_view() == decoded_names(buffers.take(index as int)),
            decreases layers@.len() - index,
        {
            proof {
                lemma_decoded_names_push(buffers.take(index as int), buffers[index as int]);
                assert(buffers.take(index + 1) =~= buffers.take(index as int).push(
                    buffers[index as int],
                ));
            }
            push_name(&mut available_names, layers[index].layer_name.as_slice());
            index += 1;
        }
        assert(buffers.take(index as int) =~= buffers);
        let names = available_names.as_slice();
        assert(names.deep_view() =~= available_names.deep_view());
        let missing = find_missing(required_layers, names);
        if missing.len() != 0 {
            Err(InstanceError::MissingLayers(missing))
        } else {
            Ok(())
        }
    }

    /// Describes what to ask of the driver to create the instance: the
    /// application and the engine by name, both in version 1.0.0, the API in
    /// version 1.3.0, and the layers and the extensions, each as it was given.
    pub fn create_info<'a>(
        required_extensions: &'a [String],
        required_layers: &'a [String],
    ) -> (info: InstanceCreateInfo<'a>)
        ensures
            info.application_info.application_name@ == APPLICATION_NAME@,
            info.application_info.engine_name@ == ENGINE_NAME@,
            info.application_info.application_version == 0x0040_0000,
            info.application_info.engine_version == 0x0040_0000,
            info.application_info.api_version == 0x0040_3000,
            info.enabled_layer_names@ == required_layers@,
            info.enabled_layer_count == required_layers@.len() as u32,
            info.enabled_extension_names@ == required_extensions@,
            info.enabled_extension_count == required_extensions@.len() as u32,
    {
        assert((0u32 << 29) | (1u32 << 22) | (0u32 << 12) | 0u32 == 0x0040_0000u32)
            by (bit_vector);
        assert((0u32 << 29) | (1u32 << 22) | (3u32 << 12) | 0u32 == 0x0040_3000u32)
            by (bit_vector);
        InstanceCreateInfo {
            application_info: ApplicationInfo {
                application_name: APPLICATION_NAME,
                application_version: make_api_version(0, 1, 0, 0),
                engine_name: ENGINE_NAME,
                engine_version: make_api_version(0, 1, 0, 0),
                api_version: make_api_version(0, 1, 3, 0),
            },
            enabled_layer_names: required_layers,
            enabled_layer_count: required_layers.len() as u32,
            enabled_extension_names: required_extensions,
            enabled_extension_count: required_extensions.len() as u32,
        }
    }
}

} // verus!
