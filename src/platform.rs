//! The fixed table that routes system calls to drivers by number.

use vstd::prelude::*;

use crate::capability::MemoryAllocationCapability;
use crate::diagnostic::{Console, CONSOLE_DRIVER_NUM};
use crate::kernel::{Grant, Kernel};
use crate::timer::{AlarmDriver, ALARM_DRIVER_NUM};

verus! {

/// Inter-process messaging; the kernel loop is handed it directly.
#[derive(Debug)]
pub struct Ipc {
    pub grant: Grant,
}

impl Ipc {
    /// Messaging backed by a new grant.
    pub fn new(kernel: &mut Kernel, capability: &MemoryAllocationCapability) -> (r: Ipc)
        requires
            old(kernel).num_grants < usize::MAX,
        ensures
            r.grant.id == old(kernel).num_grants,
            final(kernel).num_grants == old(kernel).num_grants + 1,
    {
        Ipc { grant: kernel.create_grant(capability) }
    }
}

/// A driver that a system call can be routed to.
#[derive(Debug)]
pub enum DriverRef<'a> {
    Console(&'a Console),
    Alarm(&'a AlarmDriver),
}

/// Which driver a number routes to.
#[derive(Clone, Copy, Debug, PartialEq, Eq, Structural)]
pub enum DriverKind {
    Console,
    Alarm,
}

/// The fixed routing: which driver, if any, answers driver number `n`.
pub open spec fn driver_kind(n: usize) -> Option<DriverKind> {
    if n == CONSOLE_DRIVER_NUM {
        Some(DriverKind::Console)
    } else if n == ALARM_DRIVER_NUM {
        Some(DriverKind::Alarm)
    } else {
        None
    }
}

/// The kind of a driver reference.
pub open spec fn kind_of(d: Option<DriverRef>) -> Option<DriverKind> {
    match d {
        Some(DriverRef::Console(_)) => Some(DriverKind::Console),
        Some(DriverRef::Alarm(_)) => Some(DriverKind::Alarm),
        None => None,
    }
}

/// The drivers this board offers to processes.
#[derive(Debug)]
pub struct Platform {
    pub console: Console,
    pub ipc: Ipc,
    pub alarm: AlarmDriver,
}

impl Platform {
    /// What `lookup` returns for driver number `n`.
    pub open spec fn lookup_spec(&self, n: usize) -> Option<DriverRef<'_>> {
        if n == CONSOLE_DRIVER_NUM {
            Some(DriverRef::Console(&self.console))
        } else if n == ALARM_DRIVER_NUM {
            Some(DriverRef::Alarm(&self.alarm))
        } else {
            None
        }
    }

    /// The driver for driver number `n`; `None` for a number no driver has.
    pub fn lookup(&self, n: usize) -> (r: Option<DriverRef<'_>>)
        ensures
            r == self.lookup_spec(n),
            kind_of(r) == driver_kind(n),
    {
        if n == CONSOLE_DRIVER_NUM {
            Some(DriverRef::Console(&self.console))
        } else if n == ALARM_DRIVER_NUM {
            Some(DriverRef::Alarm(&self.alarm))
        } else {
            None
        }
    }

    /// Hands the driver for `n` (or `None`) to `f` and returns what it gives.
    pub fn with_driver<F, R>(&self, n: usize, f: F) -> (r: R) where
        F: FnOnce(Option<DriverRef<'_>>) -> R,

        requires
            f.requires((self.lookup_spec(n),)),
        ensures
            f.ensures((self.lookup_spec(n),), r),
    {
        f(self.lookup(n))
    }
}

/// Routing depends on the driver number alone: any two platforms, or one
/// platform asked at two times, route a number to the same kind of driver,
/// and every number gets an answer.
pub proof fn lemma_lookup_depends_on_number_only(p: &Platform, q: &Platform, n: usize)
    ensures
        kind_of(p.lookup_spec(n)) == kind_of(q.lookup_spec(n)),
        kind_of(p.lookup_spec(n)) == driver_kind(n),
{
}

} // verus!
