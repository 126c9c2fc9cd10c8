use vstd::prelude::*;

use crate::{Bool32, FeatureBlock, PhysicalDeviceFeatures, FALSE, TRUE};

use super::FEATURE_COUNT;

verus! {

/// The rule for one switch: a switch that is desired and is not available is
/// not supported; every other pair is.
pub open spec fn flag_supported(desired: Bool32, available: Bool32) -> bool {
    !(desired == TRUE && available == FALSE)
}

/// The rule for a record: every switch of `desired` is supported by the switch
/// of `available` at the same position.
pub open spec fn flags_supported(desired: Seq<Bool32>, available: Seq<Bool32>) -> bool {
    forall|index: int|
        0 <= index < desired.len() ==> #[trigger] flag_supported(desired[index], available[index])
}

/// Whether `index` is the first position at which a switch of `desired` is not
/// supported by `available`.
pub open spec fn first_unsupported_at(
    desired: Seq<Bool32>,
    available: Seq<Bool32>,
    index: int,
) -> bool {
    &&& 0 <= index < desired.len()
    &&& !flag_supported(desired[index], available[index])
    &&& forall|earlier: int|
        0 <= earlier < index ==> #[trigger] flag_supported(desired[earlier], available[earlier])
}

/// The label under which a diagnostic names a block.
pub open spec fn block_label(block: FeatureBlock) -> Seq<char> {
    match block {
        FeatureBlock::Core => "physical_device_features"@,
        FeatureBlock::Vulkan13 => "maintenence4"@,
        FeatureBlock::DescriptorIndexing => "descriptor_indexing_features"@,
    }
}

/// The diagnostic for the switch at position `index` of a record, where it is
/// the one that is not supported: the label of its block and its name.
pub open spec fn unsupported_flag_text(index: int) -> Seq<char> {
    block_label(PhysicalDeviceFeatures::flag_block_at(index)) + " - "@
        + PhysicalDeviceFeatures::flag_name_at(index) + " is not supported"@
}

/// Whether every switch of a record holds `value`.
pub open spec fn every_flag_is(flags: Seq<Bool32>, value: Bool32) -> bool {
    forall|index: int| 0 <= index < flags.len() ==> flags[index] == value
}

impl PhysicalDeviceFeatures {
    /// Every record is supported by itself.
    pub proof fn lemma_supported_by_itself(&self)
        ensures
            flags_supported(self@, self@),
    {
    }

    /// Against a record with every switch off, a record with every switch off
    /// is supported, and a record with any switch on is not.
    pub proof fn lemma_supported_by_empty(&self, empty: &PhysicalDeviceFeatures)
        requires
            every_flag_is(empty@, FALSE),
        ensures
            every_flag_is(self@, FALSE) ==> flags_supported(self@, empty@),
            (exists|index: int| 0 <= index < FEATURE_COUNT && self@[index] == TRUE)
                ==> !flags_supported(self@, empty@),
            flags_supported(self@, empty@) <==> (forall|index: int|
                0 <= index < FEATURE_COUNT ==> self@[index] != TRUE),
    {
        if exists|index: int| 0 <= index < FEATURE_COUNT && self@[index] == TRUE {
            let index = choose|index: int| 0 <= index < FEATURE_COUNT && self@[index] == TRUE;
            assert(!flag_supported(self@[index], empty@[index]));
        }
        if flags_supported(self@, empty@) {
            assert forall|index: int| 0 <= index < FEATURE_COUNT implies self@[index] != TRUE by {
                assert(flag_supported(self@[index], empty@[index]));
            }
        }
    }

    /// A record with every switch on supports every record.
    pub proof fn lemma_supported_by_full(&self, full: &PhysicalDeviceFeatures)
        requires
            every_flag_is(full@, TRUE),
        ensures
            flags_supported(self@, full@),
    {
    }

    /// Finds the first switch of this record that `available` does not
    /// support, in the order of the record's view.
    ///
    /// Returns nothing exactly when every switch is supported.
    pub fn first_unsupported(&self, available: &PhysicalDeviceFeatures) -> (found: Option<usize>)
        ensures
            found.is_none() <==> flags_supported(self@, available@),
            found matches Some(index) ==> first_unsupported_at(self@, available@, index as int),
    {
        let mut index: usize = 0;
        while index < FEATURE_COUNT
            invariant
                index <= FEATURE_COUNT,
                self@.len() == FEATURE_COUNT,
                available@.len() == FEATURE_COUNT,
                forall|earlier: int|
                    0 <= earlier < index ==> #[trigger] flag_supported(
                        self@[earlier],
                        available@[earlier],
                    ),
            decreases FEATURE_COUNT - index,
        {
            let desired_flag = self.flag(index);
            let available_flag = available.flag(index);
            if desired_flag == Some(TRUE) && available_flag == Some(FALSE) {
                assert(!flag_supported(self@[index as int], available@[index as int]));
                return Some(index);
            }
            assert(flag_supported(self@[index as int], available@[index as int]));
            index += 1;
        }
        None
    }

    /// The diagnostic for the switch at position `index` of a record, where it
    /// is the one that is not supported, or nothing past the end of a record.
    pub fn unsupported_flag_message(index: usize) -> (message: Option<String>)
        ensures
            index < FEATURE_COUNT ==> message.is_some() && message.unwrap()@
                == unsupported_flag_text(index as int),
            index >= FEATURE_COUNT ==> message.is_none(),
    {
        let block = match Self::flag_block(index) {
            Some(block) => block,
            None => {
                return None;
            },
        };
        let name = match Self::flag_name(index) {
            Some(name) => name,
            None => {
                return None;
            },
        };
        let label = match block {
            FeatureBlock::Core => "physical_device_features",
            FeatureBlock::Vulkan13 => "maintenence4",
            FeatureBlock::DescriptorIndexing => "descriptor_indexing_features",
        };
        let mut message = String::new();
        message.append(label);
        message.append(" - ");
        message.append(name);
        message.append(" is not supported");
        assert(message@ =~= unsupported_flag_text(index as int));
        Some(message)
    }

    /// The diagnostic for the first switch of this record that `available`
    /// does not support, or nothing if every switch is supported.
    pub fn rejection_message(&self, available: &PhysicalDeviceFeatures) -> (message: Option<
        String,
    >)
        ensures
            message.is_none() <==> flags_supported(self@, available@),
            message matches Some(text) ==> exists|index: int|
                first_unsupported_at(self@, available@, index) && text@
                    == unsupported_flag_text(index),
    {
        match self.first_unsupported(available) {
            Some(index) => Self::unsupported_flag_message(index),
            None => None,
        }
    }

    /// Returns true if all of the features in this record are supported by
    /// the available features.
    ///
    /// False if any switch of this record is `TRUE` where the switch of
    /// `available` is `FALSE`; true otherwise. A device that offers more than
    /// is asked for is supported.
    pub fn is_supported_by(&self, available: &PhysicalDeviceFeatures) -> (supported: bool)
        ensures
            supported == flags_supported(self@, available@),
    {
        self.first_unsupported(available).is_none()
    }
}

} // verus!
