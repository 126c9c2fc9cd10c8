use std::string::FromUtf8Error;

use vstd::prelude::*;

use crate::ffi::{
    decoded_names, lemma_decoded_names_push, name_text, push_name, string_from_i8,
};
use crate::{Bool32, VulkanHandle, FALSE};

mod physical_device_features;
mod physical_device_properties;

pub use self::physical_device_features::{
    block_label, every_flag_is, first_unsupported_at, flag_supported, flags_supported,
    unsupported_flag_text, CoreFeatures, DescriptorIndexingFeatures, FeatureBlock,
    PhysicalDeviceFeatures, Vulkan13Features,
    CORE_FEATURE_COUNT, DESCRIPTOR_INDEXING_FEATURE_COUNT, DESCRIPTOR_INDEXING_FEATURE_OFFSET,
    FEATURE_COUNT, VULKAN_13_FEATURE_COUNT, VULKAN_13_FEATURE_OFFSET,
};
pub use self::physical_device_properties::{
    DeviceProperties, PhysicalDeviceProperties, PropertiesBlock, SparseProperties,
    MAX_PHYSICAL_DEVICE_NAME_SIZE, UUID_SIZE,
};

verus! {

/// The width of the buffer that holds the name of an extension or of a layer.
pub const MAX_EXTENSION_NAME_SIZE: usize = 256;

/// An extension as the driver reports it.
#[derive(Copy, Clone, Debug)]
pub struct ExtensionProperties {
    /// The name of the extension: fixed in width, padded with NUL.
    pub extension_name: [i8; MAX_EXTENSION_NAME_SIZE],
    /// The version of the extension.
    pub spec_version: u32,
}

/// The size of a block of texels.
#[derive(Copy, Clone, Debug, PartialEq, Eq, Structural)]
pub struct Extent3D {
    pub width: u32,
    pub height: u32,
    pub depth: u32,
}

/// A queue family as the driver reports it. The index of a family is its
/// place in the list that the driver reports.
#[derive(Copy, Clone, Debug, PartialEq, Eq, Structural)]
pub struct QueueFamilyProperties {
    /// The operations that the queues of the family support, one bit each.
    pub queue_flags: u32,
    /// The number of queues in the family.
    pub queue_count: u32,
    /// The number of bits of a timestamp that hold a value.
    pub timestamp_valid_bits: u32,
    /// The smallest block of an image that a transfer on the family can move.
    pub min_image_transfer_granularity: Extent3D,
}

/// The name buffers of a list of extensions, in the order of the list.
pub open spec fn extension_name_buffers(extensions: Seq<ExtensionProperties>) -> Seq<Seq<i8>> {
    extensions.map_values(|extension: ExtensionProperties| extension.extension_name@)
}

/// The names of a list of extensions, in the order of the list. An extension
/// whose name is not valid UTF-8 has no name and is passed over.
pub fn extension_names(extensions: &[ExtensionProperties]) -> (names: Vec<String>)
    ensures
        names.deep_view() == decoded_names(extension_name_buffers(extensions@)),
{
    let ghost buffers = extension_name_buffers(extensions@);
    let mut names: Vec<String> = Vec::new();
    let mut index: usize = 0;
    assert(names.deep_view() =~= decoded_names(buffers.take(0)));
    while index < extensions.len()
        invariant
            index <= extensions@.len(),
            buffers == extension_name_buffers(extensions@),
            names.deep_view() == decoded_names(buffers.take(index as int)),
        decreases extensions@.len() - index,
    {
        proof {
            lemma_decoded_names_push(buffers.take(index as int), buffers[index as int]);
            assert(buffers.take(index + 1) =~= buffers.take(index as int).push(
                buffers[index as int],
            ));
        }
        push_name(&mut names, extensions[index].extension_name.as_slice());
        index += 1;
    }
    assert(buffers.take(index as int) =~= buffers);
    names
}

/// The places `0`, `1`, ... of a list of `count` devices.
pub open spec fn device_places(count: nat) -> Seq<usize> {
    Seq::new(count, |place: int| place as usize)
}

/// The places, in rising order, of the feature records in `available` that
/// support `required`.
pub open spec fn supported_places(required: Seq<Bool32>, available: Seq<Seq<Bool32>>) -> Seq<
    usize,
> {
    device_places(available.len()).filter(
        |place: usize| flags_supported(required, available[place as int]),
    )
}

/// The switches of each record of a list, in the order of the list.
pub open spec fn feature_views(available: Seq<PhysicalDeviceFeatures>) -> Seq<Seq<Bool32>> {
    available.map_values(|features: PhysicalDeviceFeatures| features@)
}

/// Where no feature is asked for, every device is picked: a feature record
/// with every switch off is supported by each device that the driver reports.
pub proof fn lemma_no_requirement_selects_all(
    required: PhysicalDeviceFeatures,
    available: Seq<PhysicalDeviceFeatures>,
)
    requires
        every_flag_is(required@, FALSE),
    ensures
        supported_places(required@, feature_views(available)) == device_places(available.len()),
{
    let views = feature_views(available);
    let supported = |place: usize| flags_supported(required@, views[place as int]);
    let places = device_places(available.len());
    assert forall|index: int| 0 <= index < places.len() implies supported(
        #[trigger] places[index],
    ) by {
        assert(flags_supported(required@, views[index]));
    }
    lemma_filter_keeps_all(places, supported);
}

/// A filter that every item passes keeps the whole list.
proof fn lemma_filter_keeps_all<A>(items: Seq<A>, keep: spec_fn(A) -> bool)
    requires
        forall|index: int| 0 <= index < items.len() ==> keep(#[trigger] items[index]),
    ensures
        items.filter(keep) == items,
    decreases items.len(),
{
    reveal(Seq::filter);
    if items.len() > 0 {
        lemma_filter_keeps_all(items.drop_last(), keep);
        assert(items.drop_last().push(items.last()) =~= items);
    }
}

/// A Vulkan physical device along with its properties and requested features.
///
/// Physical devices are purely descriptive and can be cloned without concern
/// for underlying GPU resources.
pub struct PhysicalDevice {
    properties: PhysicalDeviceProperties,
    features: PhysicalDeviceFeatures,
    available_extensions: Vec<ExtensionProperties>,
    available_extension_names: Vec<String>,
    queue_family_properties: Vec<QueueFamilyProperties>,
    physical_device: u64,
}

impl PhysicalDevice {
    /// The names in `available_extension_names` are those that the buffers of
    /// `available_extensions` hold.
    #[verifier::type_invariant]
    spec fn names_match_extensions(&self) -> bool {
        self.available_extension_names.deep_view() == decoded_names(
            extension_name_buffers(self.available_extensions@),
        )
    }

    /// The properties of the device.
    pub closed spec fn spec_properties(&self) -> PhysicalDeviceProperties {
        self.properties
    }

    /// The features that were asked for when the device was picked.
    pub closed spec fn spec_features(&self) -> PhysicalDeviceFeatures {
        self.features
    }

    /// The extensions that the device offers.
    pub closed spec fn spec_available_extensions(&self) -> Seq<ExtensionProperties> {
        self.available_extensions@
    }

    /// The names of the extensions that the device offers.
    pub closed spec fn spec_available_extension_names(&self) -> Seq<Seq<char>> {
        self.available_extension_names.deep_view()
    }

    /// The queue families of the device.
    pub closed spec fn spec_queue_family_properties(&self) -> Seq<QueueFamilyProperties> {
        self.queue_family_properties@
    }

    /// The handle by which the driver knows the device, as a number.
    pub closed spec fn spec_handle(&self) -> u64 {
        self.physical_device
    }

    /// Describes a device that passed the check of its features: the handle
    /// by which the driver knows it, as a number, what the driver reported of
    /// it, and the features that were asked for.
    ///
    /// The names of its extensions are read from the buffers in
    /// `available_extensions`; an extension whose name is not valid UTF-8 has
    /// no name in the list.
    pub fn new(
        physical_device: u64,
        properties: PhysicalDeviceProperties,
        required_features: PhysicalDeviceFeatures,
        available_extensions: Vec<ExtensionProperties>,
        queue_family_properties: Vec<QueueFamilyProperties>,
    ) -> (device: Self)
        ensures
            device.spec_handle() == physical_device,
            device.spec_properties() == properties,
            device.spec_features() == required_features,
            device.spec_available_extensions() == available_extensions@,
            device.spec_queue_family_properties() == queue_family_properties@,
            device.spec_available_extension_names() == decoded_names(
                extension_name_buffers(available_extensions@),
            ),
    {
        let names = extension_names(available_extensions.as_slice());
        PhysicalDevice {
            properties,
            features: required_features,
            available_extensions,
            available_extension_names: names,
            queue_family_properties,
            physical_device,
        }
    }

    /// Properties for all queue families supported by this device.
    pub fn queue_family_properties(&self) -> (families: &[QueueFamilyProperties])
        ensures
            families@ == self.spec_queue_family_properties(),
    {
        self.queue_family_properties.as_slice()
    }

    /// The set of all extensions available on this device.
    pub fn available_extensions(&self) -> (extensions: &[ExtensionProperties])
        ensures
            extensions@ == self.spec_available_extensions(),
    {
        self.available_extensions.as_slice()
    }

    /// The set of all extension names available on this device: the names
    /// that the buffers of the available extensions hold.
    pub fn available_extension_names(&self) -> (names: &[String])
        ensures
            names.deep_view() == self.spec_available_extension_names(),
            names.deep_view() == decoded_names(
                extension_name_buffers(self.spec_available_extensions()),
            ),
    {
        proof {
            use_type_invariant(self);
        }
        let names = self.available_extension_names.as_slice();
        assert(names.deep_view() =~= self.available_extension_names.deep_view());
        names
    }

    /// The properties for this physical device.
    pub fn properties(&self) -> (properties: &PhysicalDeviceProperties)
        ensures
            *properties == self.spec_properties(),
    {
        &self.properties
    }

    /// The features requested when picking this device.
    pub fn features(&self) -> (features: &PhysicalDeviceFeatures)
        ensures
            *features == self.spec_features(),
    {
        &self.features
    }

    /// The physical device name from the device properties: the text before
    /// the first NUL of the name's buffer, or an error if that text is not
    /// valid UTF-8.
    pub fn name(&self) -> (name: Result<String, FromUtf8Error>)
        ensures
            name.is_ok() <==> name_text(
                self.spec_properties().spec_properties().device_name@,
            ).is_some(),
            name.is_ok() ==> Some(name.unwrap()@) == name_text(
                self.spec_properties().spec_properties().device_name@,
            ),
    {
        string_from_i8(self.properties.properties().device_name.as_slice())
    }

    /// Picks, among the devices whose features are listed in `available`,
    /// those that support `required_features`: the places in `available`, in
    /// rising order, of the feature records that support them.
    ///
    /// No device that supports the features is left out, and none is an error:
    /// where no device supports them the list is empty.
    pub fn supported_devices(
        required_features: &PhysicalDeviceFeatures,
        available: &[PhysicalDeviceFeatures],
    ) -> (chosen: Vec<usize>)
        ensures
            chosen@ == supported_places(required_features@, feature_views(available@)),
    {
        let ghost views = feature_views(available@);
        let ghost places = device_places(views.len());
        let ghost supported = |place: usize| flags_supported(required_features@, views[place as int]);
        let mut chosen: Vec<usize> = Vec::new();
        let mut index: usize = 0;
        proof {
            reveal(Seq::filter);
            assert(chosen@ =~= places.take(0).filter(supported));
        }
        while index < available.len()
            invariant
                index <= available@.len(),
                views == feature_views(available@),
                places == device_places(views.len()),
                supported == |place: usize|
                    flags_supported(required_features@, views[place as int]),
                chosen@ == places.take(index as int).filter(supported),
            decreases available@.len() - index,
        {
            proof {
                reveal(Seq::filter);
                let longer = places.take(index + 1);
                assert(longer.drop_last() =~= places.take(index as int));
                assert(longer.last() == index);
            }
            if required_features.is_supported_by(&available[index]) {
                chosen.push(index);
            }
            index += 1;
        }
        assert(places.take(index as int) =~= places);
        chosen
    }
}

impl VulkanHandle for PhysicalDevice {
    type Handle = u64;

    open spec fn spec_raw(&self) -> u64 {
        self.spec_handle()
    }

    fn raw(&self) -> (handle: &u64) {
        &self.physical_device
    }
}

impl Clone for PhysicalDevice {
    /// A copy that describes the same device.
    fn clone(&self) -> (copy: Self)
        ensures
            copy.spec_handle() == self.spec_handle(),
            copy.spec_properties() == self.spec_properties(),
            copy.spec_features() == self.spec_features(),
            copy.spec_available_extensions() == self.spec_available_extensions(),
            copy.spec_queue_family_properties() == self.spec_queue_family_properties(),
            copy.spec_available_extension_names() == self.spec_available_extension_names(),
    {
        proof {
            use_type_invariant(self);
        }
        let available_extensions = self.available_extensions.clone();
        let available_extension_names = self.available_extension_names.clone();
        let queue_family_properties = self.queue_family_properties.clone();
        assert(available_extensions@ =~= self.available_extensions@);
        assert(queue_family_properties@ =~= self.queue_family_properties@);
        assert(available_extension_names.deep_view() =~= self.available_extension_names.deep_view());
        PhysicalDevice {
            properties: self.properties,
            features: self.features,
            available_extensions,
            available_extension_names,
            queue_family_properties,
            physical_device: self.physical_device,
        }
    }
}

} // verus!
