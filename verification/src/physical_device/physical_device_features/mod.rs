use vstd::prelude::*;

use crate::{Bool32, FALSE};

mod core_features;
mod descriptor_indexing_features;
mod is_supported_by;
mod vulkan_13_features;

pub use self::{
    core_features::{CoreFeatures, CORE_FEATURE_COUNT},
    descriptor_indexing_features::{DescriptorIndexingFeatures, DESCRIPTOR_INDEXING_FEATURE_COUNT},
    is_supported_by::{
        block_label, every_flag_is, first_unsupported_at, flag_supported, flags_supported,
        unsupported_flag_text,
    },
    vulkan_13_features::{Vulkan13Features, VULKAN_13_FEATURE_COUNT},
};

verus! {

/// The number of switches in a feature record, over all its blocks.
pub const FEATURE_COUNT: usize = 90;

/// The position of the first switch of the version 1.3 block in a record.
pub const VULKAN_13_FEATURE_OFFSET: usize = 55;

/// The position of the first switch of the descriptor indexing block in a
/// record.
pub const DESCRIPTOR_INDEXING_FEATURE_OFFSET: usize = 70;

/// The blocks of a feature record, by which the links of its chain name one
/// another.
#[derive(Copy, Clone, Debug, PartialEq, Eq, Structural)]
pub enum FeatureBlock {
    /// The core block, which is the head of the chain.
    Core,
    /// The descriptor indexing block.
    DescriptorIndexing,
    /// The version 1.3 block.
    Vulkan13,
}

/// An owned set of physical device features: the core block, two extension
/// blocks, and the links that chain them together.
///
/// The record is a plain value. Its links name blocks rather than addresses,
/// so a copy of a linked record is linked as well; the addresses that the
/// driver wants are taken from [`PhysicalDeviceFeatures::chain`] at the moment
/// of the call.
#[derive(Copy, Clone, Debug)]
pub struct PhysicalDeviceFeatures {
    physical_device_features2: CoreFeatures,
    descriptor_indexing_features: DescriptorIndexingFeatures,
    physical_device_vulkan_13_features: Vulkan13Features,
    linked: bool,
}

impl View for PhysicalDeviceFeatures {
    type V = Seq<Bool32>;

    /// Every switch of the record in the order in which support is checked:
    /// the core block, then the version 1.3 block, then the descriptor
    /// indexing block.
    open spec fn view(&self) -> Seq<Bool32> {
        self.core_block()@ + self.vulkan_13_block()@ + self.descriptor_indexing_block()@
    }
}

impl PhysicalDeviceFeatures {
    /// The core block of the record.
    pub closed spec fn core_block(&self) -> CoreFeatures {
        self.physical_device_features2
    }

    /// The descriptor indexing block of the record.
    pub closed spec fn descriptor_indexing_block(&self) -> DescriptorIndexingFeatures {
        self.descriptor_indexing_features
    }

    /// The version 1.3 block of the record.
    pub closed spec fn vulkan_13_block(&self) -> Vulkan13Features {
        self.physical_device_vulkan_13_features
    }

    /// Whether the blocks of the record have been linked into a chain.
    pub closed spec fn is_linked(&self) -> bool {
        self.linked
    }

    /// The block that the link of `block` names, if it has been set.
    pub open spec fn next_block(&self, block: FeatureBlock) -> Option<FeatureBlock> {
        if self.is_linked() {
            match block {
                FeatureBlock::Core => Some(FeatureBlock::DescriptorIndexing),
                FeatureBlock::DescriptorIndexing => Some(FeatureBlock::Vulkan13),
                FeatureBlock::Vulkan13 => None,
            }
        } else {
            None
        }
    }

    /// The blocks that are reached from the head by following the links.
    pub open spec fn spec_chain(&self) -> Seq<FeatureBlock> {
        if self.is_linked() {
            seq![FeatureBlock::Core, FeatureBlock::DescriptorIndexing, FeatureBlock::Vulkan13]
        } else {
            seq![FeatureBlock::Core]
        }
    }

    /// Builds an unlinked record from its three blocks.
    pub fn from_blocks(
        features: CoreFeatures,
        descriptor_indexing_features: DescriptorIndexingFeatures,
        vulkan_13_features: Vulkan13Features,
    ) -> (record: Self)
        ensures
            record.core_block() == features,
            record.descriptor_indexing_block() == descriptor_indexing_features,
            record.vulkan_13_block() == vulkan_13_features,
            !record.is_linked(),
    {
        PhysicalDeviceFeatures {
            physical_device_features2: features,
            descriptor_indexing_features,
            physical_device_vulkan_13_features: vulkan_13_features,
            linked: false,
        }
    }

    /// The core block.
    pub fn features(&self) -> (block: &CoreFeatures)
        ensures
            *block == self.core_block(),
    {
        &self.physical_device_features2
    }

    /// The core block, for changing its switches. The other blocks and the
    /// links stay as they are.
    pub fn features_mut(&mut self) -> (block: &mut CoreFeatures)
        ensures
            *block == old(self).core_block(),
            final(self).core_block() == *final(block),
            final(self).descriptor_indexing_block() == old(self).descriptor_indexing_block(),
            final(self).vulkan_13_block() == old(self).vulkan_13_block(),
            final(self).is_linked() == old(self).is_linked(),
    {
        &mut self.physical_device_features2
    }

    /// The descriptor indexing block.
    pub fn descriptor_indexing_features(&self) -> (block: &DescriptorIndexingFeatures)
        ensures
            *block == self.descriptor_indexing_block(),
    {
        &self.descriptor_indexing_features
    }

    /// The descriptor indexing block, for changing its switches. The other
    /// blocks and the links stay as they are.
    pub fn descriptor_indexing_features_mut(&mut self) -> (block: &mut DescriptorIndexingFeatures)
        ensures
            *block == old(self).descriptor_indexing_block(),
            final(self).descriptor_indexing_block() == *final(block),
            final(self).core_block() == old(self).core_block(),
            final(self).vulkan_13_block() == old(self).vulkan_13_block(),
            final(self).is_linked() == old(self).is_linked(),
    {
        &mut self.descriptor_indexing_features
    }

    /// The version 1.3 block.
    pub fn vulkan_13_features(&self) -> (block: &Vulkan13Features)
        ensures
            *block == self.vulkan_13_block(),
    {
        &self.physical_device_vulkan_13_features
    }

    /// The version 1.3 block, for changing its switches. The other blocks and
    /// the links stay as they are.
    pub fn vulkan_13_features_mut(&mut self) -> (block: &mut Vulkan13Features)
        ensures
            *block == old(self).vulkan_13_block(),
            final(self).vulkan_13_block() == *final(block),
            final(self).core_block() == old(self).core_block(),
            final(self).descriptor_indexing_block() == old(self).descriptor_indexing_block(),
            final(self).is_linked() == old(self).is_linked(),
    {
        &mut self.physical_device_vulkan_13_features
    }

    /// Links the blocks into a chain: the core block is followed by the
    /// descriptor indexing block, which is followed by the version 1.3 block,
    /// which ends the chain. Returns the head of the chain.
    ///
    /// No switch changes, and linking a linked record changes nothing.
    pub fn link_p_next_chain(&mut self) -> (head: FeatureBlock)
        ensures
            head == FeatureBlock::Core,
            final(self).is_linked(),
            final(self).core_block() == old(self).core_block(),
            final(self).descriptor_indexing_block() == old(self).descriptor_indexing_block(),
            final(self).vulkan_13_block() == old(self).vulkan_13_block(),
            final(self)@ == old(self)@,
            final(self).spec_chain() == seq![
                FeatureBlock::Core,
                FeatureBlock::DescriptorIndexing,
                FeatureBlock::Vulkan13,
            ],
            old(self).is_linked() ==> *final(self) == *old(self),
    {
        self.linked = true;
        FeatureBlock::Core
    }

    /// The blocks of the chain from its head on: the head alone while the
    /// record is not linked, every block once it is.
    pub fn chain(&self) -> (blocks: Vec<FeatureBlock>)
        ensures
            blocks@ == self.spec_chain(),
            blocks@[0] == FeatureBlock::Core,
            forall|index: int|
                0 <= index < blocks@.len() - 1 ==> self.next_block(#[trigger] blocks@[index])
                    == Some(blocks@[index + 1]),
            self.next_block(blocks@.last()).is_none(),
    {
        let mut blocks: Vec<FeatureBlock> = Vec::new();
        blocks.push(FeatureBlock::Core);
        if self.linked {
            blocks.push(FeatureBlock::DescriptorIndexing);
            blocks.push(FeatureBlock::Vulkan13);
        }
        assert(blocks@ =~= self.spec_chain());
        blocks
    }

    /// Reads the switch at position `index` of the record, or nothing past its
    /// end.
    pub fn flag(&self, index: usize) -> (flag: Option<Bool32>)
        ensures
            index < FEATURE_COUNT ==> flag == Some(self@[index as int]),
            index >= FEATURE_COUNT ==> flag.is_none(),
    {
        if index < VULKAN_13_FEATURE_OFFSET {
            self.physical_device_features2.flag(index)
        } else if index < DESCRIPTOR_INDEXING_FEATURE_OFFSET {
            self.physical_device_vulkan_13_features.flag(index - VULKAN_13_FEATURE_OFFSET)
        } else {
            self.descriptor_indexing_features.flag(index - DESCRIPTOR_INDEXING_FEATURE_OFFSET)
        }
    }

    /// The block that holds the switch at position `index` of a record.
    pub open spec fn flag_block_at(index: int) -> FeatureBlock {
        if index < VULKAN_13_FEATURE_OFFSET {
            FeatureBlock::Core
        } else if index < DESCRIPTOR_INDEXING_FEATURE_OFFSET {
            FeatureBlock::Vulkan13
        } else {
            FeatureBlock::DescriptorIndexing
        }
    }

    /// The name of the switch at position `index` of a record.
    pub open spec fn flag_name_at(index: int) -> Seq<char> {
        if index < VULKAN_13_FEATURE_OFFSET {
            CoreFeatures::flag_name_at(index)
        } else if index < DESCRIPTOR_INDEXING_FEATURE_OFFSET {
            Vulkan13Features::flag_name_at(index - VULKAN_13_FEATURE_OFFSET)
        } else {
            DescriptorIndexingFeatures::flag_name_at(index - DESCRIPTOR_INDEXING_FEATURE_OFFSET)
        }
    }

    /// The block that holds the switch at position `index` of a record, or
    /// nothing past the end of a record.
    pub fn flag_block(index: usize) -> (block: Option<FeatureBlock>)
        ensures
            index < FEATURE_COUNT ==> block == Some(Self::flag_block_at(index as int)),
            index >= FEATURE_COUNT ==> block.is_none(),
    {
        if index < VULKAN_13_FEATURE_OFFSET {
            Some(FeatureBlock::Core)
        } else if index < DESCRIPTOR_INDEXING_FEATURE_OFFSET {
            Some(FeatureBlock::Vulkan13)
        } else if index < FEATURE_COUNT {
            Some(FeatureBlock::DescriptorIndexing)
        } else {
            None
        }
    }

    /// The name of the switch at position `index` of a record, or nothing past
    /// the end of a record.
    pub fn flag_name(index: usize) -> (name: Option<&'static str>)
        ensures
            index < FEATURE_COUNT ==> name.is_some() && name.unwrap()@ == Self::flag_name_at(
                index as int,
            ),
            index >= FEATURE_COUNT ==> name.is_none(),
    {
        if index < VULKAN_13_FEATURE_OFFSET {
            CoreFeatures::flag_name(index)
        } else if index < DESCRIPTOR_INDEXING_FEATURE_OFFSET {
            Vulkan13Features::flag_name(index - VULKAN_13_FEATURE_OFFSET)
        } else {
            DescriptorIndexingFeatures::flag_name(index - DESCRIPTOR_INDEXING_FEATURE_OFFSET)
        }
    }
}

impl Default for PhysicalDeviceFeatures {
    /// The unlinked record with every switch off.
    fn default() -> (record: Self)
        ensures
            !record.is_linked(),
            every_flag_is(record@, FALSE),
    {
        PhysicalDeviceFeatures {
            physical_device_features2: CoreFeatures::default(),
            descriptor_indexing_features: DescriptorIndexingFeatures::default(),
            physical_device_vulkan_13_features: Vulkan13Features::default(),
            linked: false,
        }
    }
}

} // verus!
