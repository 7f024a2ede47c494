//! Zero-size tokens that gate the kernel's privileged operations.

use vstd::prelude::*;

verus! {

/// Authorises creating and managing processes.
#[derive(Debug)]
pub struct ProcessManagementCapability {
    _private: (),
}

/// Authorises entering the kernel's main loop.
#[derive(Debug)]
pub struct MainLoopCapability {
    _private: (),
}

/// Authorises allocating grant memory for drivers.
#[derive(Debug)]
pub struct MemoryAllocationCapability {
    _private: (),
}

/// The set of tokens handed to the boot routine.
#[derive(Debug)]
pub struct BootCapabilities {
    pub process_management: ProcessManagementCapability,
    pub main_loop: MainLoopCapability,
    pub memory_allocation: MemoryAllocationCapability,
}

/// The minting authority. Its fields are private, so tokens exist only where
/// an issuer was consumed; `issue` takes the issuer by value, so one issuer
/// mints exactly one set of tokens.
#[derive(Debug)]
pub struct CapabilityIssuer {
    _private: (),
}

impl CapabilityIssuer {
    /// Creates the issuer; the reset routine does this once.
    pub fn new() -> (r: CapabilityIssuer) {
        CapabilityIssuer { _private: () }
    }

    /// Mints one token of each class, consuming the issuer.
    pub fn issue(self) -> (r: BootCapabilities) {
        BootCapabilities {
            process_management: ProcessManagementCapability { _private: () },
            main_loop: MainLoopCapability { _private: () },
            memory_allocation: MemoryAllocationCapability { _private: () },
        }
    }
}

} // verus!
