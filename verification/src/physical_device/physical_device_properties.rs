use vstd::prelude::*;

use crate::Bool32;

verus! {

/// The width of the buffer that holds a device's name.
pub const MAX_PHYSICAL_DEVICE_NAME_SIZE: usize = 256;

/// The width of a pipeline cache identifier.
pub const UUID_SIZE: usize = 16;

/// The limits of a device as the driver fills them in. The library hands them
/// on unread.
#[verifier::external_type_specification]
#[verifier::external_body]
pub struct ExVkPhysicalDeviceLimits(ash::vk::PhysicalDeviceLimits);

/// How a device lays out sparse resources.
#[derive(Copy, Clone, Debug, PartialEq, Eq, Structural)]
pub struct SparseProperties {
    pub residency_standard2_d_block_shape: Bool32,
    pub residency_standard2_d_multisample_block_shape: Bool32,
    pub residency_standard3_d_block_shape: Bool32,
    pub residency_aligned_mip_size: Bool32,
    pub residency_non_resident_strict: Bool32,
}

/// What the driver reports of a device: versions, identifiers, the name, and
/// the limits.
#[derive(Copy, Clone, Debug)]
pub struct DeviceProperties {
    /// The version of the API that the device supports, packed.
    pub api_version: u32,
    /// The version of the driver, as the vendor counts it.
    pub driver_version: u32,
    /// The identifier of the vendor.
    pub vendor_id: u32,
    /// The identifier of the device among those of its vendor.
    pub device_id: u32,
    /// The kind of the device, as the API numbers the kinds.
    pub device_type: i32,
    /// The name of the device: fixed in width, padded with NUL.
    pub device_name: [i8; MAX_PHYSICAL_DEVICE_NAME_SIZE],
    /// The identifier by which pipeline caches of the device are told apart.
    pub pipeline_cache_uuid: [u8; UUID_SIZE],
    /// The limits of the device.
    pub limits: ash::vk::PhysicalDeviceLimits,
    /// How the device lays out sparse resources.
    pub sparse_properties: SparseProperties,
}

/// The blocks of a properties record, by which the links of its chain name
/// one another. The record has one block, which is the head of its chain.
#[derive(Copy, Clone, Debug, PartialEq, Eq, Structural)]
pub enum PropertiesBlock {
    /// The block of the properties that every device reports.
    Core,
}

/// An owned set of physical device properties.
#[derive(Copy, Clone, Debug)]
pub struct PhysicalDeviceProperties {
    physical_device_properties: DeviceProperties,
}

impl PhysicalDeviceProperties {
    /// The properties that the record holds.
    pub closed spec fn spec_properties(&self) -> DeviceProperties {
        self.physical_device_properties
    }

    /// Takes the properties that the driver reported of a device.
    pub fn new(properties: DeviceProperties) -> (record: Self)
        ensures
            record.spec_properties() == properties,
    {
        PhysicalDeviceProperties { physical_device_properties: properties }
    }

    /// The properties that the record holds.
    pub fn properties(&self) -> (properties: &DeviceProperties)
        ensures
            *properties == self.spec_properties(),
    {
        &self.physical_device_properties
    }

    /// The blocks that are reached from the head by following the links: the
    /// head alone, since the record has no other block.
    pub open spec fn spec_chain(&self) -> Seq<PropertiesBlock> {
        seq![PropertiesBlock::Core]
    }

    /// Links the blocks of the record into a chain and returns the head of
    /// the chain. The record has one block, so there is no link to set: the
    /// properties stay as they are, and the chain is the head alone.
    pub fn link_p_next_chain(&mut self) -> (head: PropertiesBlock)
        ensures
            head == PropertiesBlock::Core,
            final(self).spec_properties() == old(self).spec_properties(),
            *final(self) == *old(self),
            final(self).spec_chain() == seq![head],
    {
        PropertiesBlock::Core
    }

    /// The properties that the record holds, for changing them.
    pub fn properties_mut(&mut self) -> (properties: &mut DeviceProperties)
        ensures
            *properties == old(self).spec_properties(),
            final(self).spec_properties() == *final(properties),
    {
        &mut self.physical_device_properties
    }
}

} // verus!
