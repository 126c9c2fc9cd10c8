use vstd::prelude::*;

use crate::{
    InstanceError, InstanceResult, PhysicalDevice, PhysicalDeviceFeatures, CoreFeatures,
    VulkanHandle,
};

mod queue_family_info;

pub use self::queue_family_info::QueueFamilyInfo;

verus! {

/// ash's logical device: the handle and the functions that were loaded for
/// it. The library hands it on unread.
#[verifier::external_type_specification]
#[verifier::external_body]
pub struct ExAshDevice(ash::Device);

/// The features that a device is created with. The driver takes them in one
/// of two ways and never in both, so a request holds one of the two.
#[derive(Copy, Clone, Debug)]
pub enum FeatureRequest {
    /// A linked feature record, which is handed over as the extension chain
    /// of the request. The field for the features alone stays empty.
    Chained(PhysicalDeviceFeatures),
    /// The core block alone, handed over in the field for it, with no chain.
    Unchained(CoreFeatures),
}

/// What the driver is asked for when a logical device is created, as plain
/// values.
///
/// The request borrows the names and the queue requests that it was made
/// from, so none of them changes or goes away while the request is in use.
#[derive(Debug)]
pub struct DeviceCreateInfo<'a, P> {
    /// The features to enable.
    pub features: FeatureRequest,
    /// The requests for queues, one for each queue family.
    pub queue_create_infos: &'a [QueueFamilyInfo<P>],
    /// The number of requests for queues, as the driver's 32 bits hold it.
    pub queue_create_info_count: u32,
    /// The names of the layers to enable.
    pub enabled_layer_names: &'a [String],
    /// The number of layers to enable, as the driver's 32 bits hold it.
    pub enabled_layer_count: u32,
    /// The names of the device extensions to enable.
    pub enabled_extension_names: &'a [String],
    /// The number of device extensions to enable, as the driver's 32 bits
    /// hold it.
    pub enabled_extension_count: u32,
}

/// The logical device and information about the backing physical device.
///
/// Basically everything done with Vulkan requires a logical device. This type
/// keeps the relevant information about the underlying physical device at
/// hand for debugging and reference.
///
/// The device must be destroyed before the instance that it was created with.
pub struct LogicalDevice {
    physical_device: PhysicalDevice,
    active_physical_device_extensions: Vec<String>,
    device: ash::Device,
}

/// Copies a list of names.
pub fn clone_names(names: &[String]) -> (copy: Vec<String>)
    ensures
        copy@ == names@,
        copy.deep_view() == names.deep_view(),
{
    let mut copy: Vec<String> = Vec::new();
    let mut index: usize = 0;
    while index < names.len()
        invariant
            index <= names@.len(),
            copy@ == names@.take(index as int),
        decreases names@.len() - index,
    {
        copy.push(names[index].clone());
        assert(copy@ =~= names@.take(index + 1));
        index += 1;
    }
    assert(names@.take(index as int) =~= names@);
    assert(copy.deep_view() =~= names.deep_view());
    copy
}

impl LogicalDevice {
    /// The physical device that the logical device controls.
    pub closed spec fn spec_physical_device(&self) -> PhysicalDevice {
        self.physical_device
    }

    /// The device extensions that were enabled when the device was created.
    pub closed spec fn spec_active_physical_device_extensions(&self) -> Seq<String> {
        self.active_physical_device_extensions@
    }

    /// The device as the driver created it.
    pub closed spec fn spec_device(&self) -> ash::Device {
        self.device
    }

    /// Get the physical device being controlled by this logical device.
    pub fn physical_device(&self) -> (physical_device: &PhysicalDevice)
        ensures
            *physical_device == self.spec_physical_device(),
    {
        &self.physical_device
    }

    /// Get all of the device extensions used when creating the device.
    pub fn active_physical_device_extensions(&self) -> (extensions: &[String])
        ensures
            extensions@ == self.spec_active_physical_device_extensions(),
    {
        self.active_physical_device_extensions.as_slice()
    }

    /// Describes what to ask of the driver to create a logical device for
    /// `physical_device`.
    ///
    /// The layers are those of the instance, the extensions and the queue
    /// requests are the caller's, each as it was given. The features are those
    /// that the physical device was picked for, linked and handed over as a
    /// chain; the field for the features alone is never used beside it.
    pub fn create_info<'a, P>(
        instance_layers: &'a [String],
        physical_device: &PhysicalDevice,
        physical_device_extensions: &'a [String],
        queue_family_infos: &'a [QueueFamilyInfo<P>],
    ) -> (info: DeviceCreateInfo<'a, P>)
        ensures
            info.features matches FeatureRequest::Chained(features) && features.is_linked()
                && features.core_block() == physical_device.spec_features().core_block()
                && features.descriptor_indexing_block()
                == physical_device.spec_features().descriptor_indexing_block()
                && features.vulkan_13_block() == physical_device.spec_features().vulkan_13_block(),
            info.queue_create_infos@ == queue_family_infos@,
            info.queue_create_info_count == queue_family_infos@.len() as u32,
            info.enabled_layer_names@ == instance_layers@,
            info.enabled_layer_count == instance_layers@.len() as u32,
            info.enabled_extension_names@ == physical_device_extensions@,
            info.enabled_extension_count == physical_device_extensions@.len() as u32,
    {
        let mut features = *physical_device.features();
        features.link_p_next_chain();
        DeviceCreateInfo {
            features: FeatureRequest::Chained(features),
            queue_create_infos: queue_family_infos,
            queue_create_info_count: queue_family_infos.len() as u32,
            enabled_layer_names: instance_layers,
            enabled_layer_count: instance_layers.len() as u32,
            enabled_extension_names: physical_device_extensions,
            enabled_extension_count: physical_device_extensions.len() as u32,
        }
    }

    /// Takes what the driver answered to the request to create a logical
    /// device for `physical_device` with `physical_device_extensions`.
    ///
    /// Where the driver created the device, the logical device owns it and
    /// records the physical device and exactly the extensions that were
    /// asked for. Where the driver reported an error, that error is returned.
    pub fn new(
        physical_device: PhysicalDevice,
        physical_device_extensions: &[String],
        created: Result<ash::Device, ash::vk::Result>,
    ) -> (device: InstanceResult<Self>)
        ensures
            created matches Ok(handle) ==> device.is_ok() && device.unwrap().spec_device()
                == handle && device.unwrap().spec_physical_device() == physical_device
                && device.unwrap().spec_active_physical_device_extensions()
                == physical_device_extensions@,
            created matches Err(code) ==> device == Err::<Self, InstanceError>(
                InstanceError::UnexpectedVulkanError(code),
            ),
    {
        match created {
            Ok(device) => Ok(
                LogicalDevice {
                    physical_device,
                    active_physical_device_extensions: clone_names(physical_device_extensions),
                    device,
                },
            ),
            Err(code) => Err(InstanceError::from(code)),
        }
    }
}

impl VulkanHandle for LogicalDevice {
    type Handle = ash::Device;

    open spec fn spec_raw(&self) -> ash::Device {
        self.spec_device()
    }

    fn raw(&self) -> (handle: &ash::Device) {
        &self.device
    }
}

} // verus!
