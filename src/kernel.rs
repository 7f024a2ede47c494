//! The part of the kernel's state that boot touches: grant creation.

use vstd::prelude::*;

use crate::capability::MemoryAllocationCapability;

verus! {

/// Per-process memory that one driver owns, identified by the order in which
/// the kernel created it.
#[derive(Clone, Copy, Debug, PartialEq, Eq, Structural)]
pub struct Grant {
    pub id: usize,
}

/// The kernel's boot-time bookkeeping: how many grants it has handed out.
#[derive(Debug)]
pub struct Kernel {
    pub num_grants: usize,
}

impl Kernel {
    /// A kernel that has created no grant yet.
    pub fn new() -> (r: Kernel)
        ensures
            r.num_grants == 0,
    {
        Kernel { num_grants: 0 }
    }

    /// Creates a fresh grant; its id differs from every earlier one.
    pub fn create_grant(&mut self, _capability: &MemoryAllocationCapability) -> (r: Grant)
        requires
            old(self).num_grants < usize::MAX,
        ensures
            r.id == old(self).num_grants,
            final(self).num_grants == old(self).num_grants + 1,
    {
        let r = Grant { id: self.num_grants };
        self.num_grants = self.num_grants + 1;
        r
    }
}

} // verus!
