use vstd::prelude::*;

verus! {

/// A request for queues of one queue family: the index of the family, and one
/// priority for each queue to create in it.
///
/// `P` is the type of a priority, a number between 0 and 1 in the precision
/// that the driver reads. The library keeps the priorities in the order in
/// which they were added and never looks into one.
///
/// While a [`crate::DeviceCreateInfo`] borrows the request, no priority can be
/// added to it.
#[derive(Debug)]
pub struct QueueFamilyInfo<P> {
    queue_family_index: u32,
    queue_priorities: Vec<P>,
}

impl<P> QueueFamilyInfo<P> {
    /// The index of the queue family.
    pub closed spec fn spec_queue_family_index(&self) -> u32 {
        self.queue_family_index
    }

    /// The priorities of the queues to create, in the order in which they were
    /// added.
    pub closed spec fn spec_queue_priorities(&self) -> Seq<P> {
        self.queue_priorities@
    }

    /// Create a new instance with no queue priorities.
    ///
    /// `queue_family_index` is the index of the queue family, which comes from
    /// the list of a physical device's queue families.
    pub fn new(queue_family_index: u32) -> (info: Self)
        ensures
            info.spec_queue_family_index() == queue_family_index,
            info.spec_queue_priorities() == Seq::<P>::empty(),
    {
        QueueFamilyInfo { queue_family_index, queue_priorities: Vec::new() }
    }

    /// Add a queue with the given priority, after those that were added
    /// before.
    ///
    /// A priority should be between 0 and 1. The driver may give more
    /// resources to a queue of higher priority.
    pub fn add_queue_priority(&mut self, priority: P)
        ensures
            final(self).spec_queue_family_index() == old(self).spec_queue_family_index(),
            final(self).spec_queue_priorities() == old(self).spec_queue_priorities().push(
                priority,
            ),
    {
        self.queue_priorities.push(priority);
    }

    /// The index of the queue family.
    pub fn queue_family_index(&self) -> (index: u32)
        ensures
            index == self.spec_queue_family_index(),
    {
        self.queue_family_index
    }

    /// The priorities of the queues to create, in the order in which they were
    /// added.
    pub fn queue_priorities(&self) -> (priorities: &[P])
        ensures
            priorities@ == self.spec_queue_priorities(),
    {
        self.queue_priorities.as_slice()
    }

    /// The number of queues to create: the number of priorities, as the
    /// driver's 32 bits hold it.
    pub fn queue_count(&self) -> (count: u32)
        ensures
            count == self.spec_queue_priorities().len() as u32,
            self.spec_queue_priorities().len() <= u32::MAX ==> count
                == self.spec_queue_priorities().len(),
    {
        self.queue_priorities.len() as u32
    }
}

impl<P: Clone> Clone for QueueFamilyInfo<P> {
    /// A request for the same queue family, with a copy of each priority in
    /// the same order.
    fn clone(&self) -> (copy: Self)
        ensures
            copy.spec_queue_family_index() == self.spec_queue_family_index(),
            copy.spec_queue_priorities().len() == self.spec_queue_priorities().len(),
            forall|index: int|
                0 <= index < self.spec_queue_priorities().len() ==> cloned(
                    #[trigger] self.spec_queue_priorities()[index],
                    copy.spec_queue_priorities()[index],
                ),
    {
        QueueFamilyInfo {
            queue_family_index: self.queue_family_index,
            queue_priorities: self.queue_priorities.clone(),
        }
    }
}

} // verus!
