//! The boot routine: wires the subsystems in order and admits the processes.

use vstd::prelude::*;

use crate::capability::{CapabilityIssuer, MainLoopCapability};
use crate::clock::ClocksStarted;
use crate::diagnostic::{DebugLog, DeferredCallRegistry, DiagnosticChannel};
use crate::format::{hook_line, load_process_hook};
use crate::kernel::Kernel;
use crate::loader::{
    admissions, is_admitted, load_processes, FaultResponse, ImageHeader, ProcessTable,
    StorageRegion, NUM_PROCS,
};
use crate::platform::{Ipc, Platform};
use crate::timer::TimerSubsystem;

verus! {

/// How the kernel treats a faulting process: halt it for good.
pub const FAULT_RESPONSE: FaultResponse = FaultResponse::Stop;

/// The first line of the debug log after start-up.
pub open spec fn init_line() -> Seq<char> {
    "Initialization complete. Entering main loop\r"@
}

/// Everything the boot routine hands to the scheduler.
#[derive(Debug)]
pub struct Board {
    pub kernel: Kernel,
    pub platform: Platform,
    pub processes: ProcessTable,
    pub log: DebugLog,
    pub main_loop: MainLoopCapability,
}

/// The debug log after boot: the start-up line, then one line per admitted
/// process, in slot order.
pub open spec fn boot_log_ok(
    log: Seq<String>,
    imgs: Seq<ImageHeader>,
    region: StorageRegion,
    arena_len: nat,
) -> bool {
    let adm = admissions(imgs, region.len as nat, arena_len);
    &&& log.len() == 1 + adm.len()
    &&& log[0]@ == init_line()
    &&& forall|k: int|
        0 <= k < adm.len() ==> (#[trigger] log[k + 1])@ == hook_line(
            k as nat,
            imgs[adm[k].image as int].name@,
            (region.base + adm[k].flash_offset) as nat,
        )
}

/// The boot sequence after the clocks are up: mint the capabilities, build
/// the timers, the console and debug channel and the driver table, admit the
/// processes found in storage, and log one line per admitted process. It
/// cannot fail: an empty or unusable storage region gives an empty table.
pub fn reset_handler(
    issuer: CapabilityIssuer,
    clocks: ClocksStarted,
    region: &StorageRegion,
    images: &Vec<ImageHeader>,
    arena: &[u8],
) -> (r: Board)
    requires
        region.wf(),
    ensures
        r.processes.wf(),
        ({
            let adm = admissions(images@, region.len as nat, arena@.len());
            &&& forall|k: int|
                0 <= k < adm.len() ==> match #[trigger] r.processes.slots@[k] {
                    Some(p) => is_admitted(p, adm[k], images@, region.base as nat, FAULT_RESPONSE),
                    None => false,
                }
            &&& forall|k: int| adm.len() <= k < NUM_PROCS ==> (#[trigger] r.processes.slots@[k]) is None
        }),
        r.processes.occupied() <= NUM_PROCS,
        r.processes.partitions_arena(arena@.len()),
        r.platform.alarm.grant.id == 0,
        r.platform.console.grant.id == 1,
        r.platform.ipc.grant.id == 2,
        r.kernel.num_grants == 3,
        r.log.writer_attached,
        r.log.pending@.len() == 0,
        boot_log_ok(r.log.written@, images@, *region, arena@.len()),
{
    let caps = issuer.issue();
    let mut kernel = Kernel::new();
    let mut log = DebugLog::new();
    let mut deferred = DeferredCallRegistry::new();
    assert(!deferred.taken@[0]);

    let mut timers = TimerSubsystem::build(&clocks, &mut kernel, &caps.memory_allocation);
    let diagnostics = DiagnosticChannel::build(
        &mut timers,
        &mut deferred,
        &mut kernel,
        &caps.memory_allocation,
    );
    log.attach_writer(&diagnostics.debug_writer);

    let ipc = Ipc::new(&mut kernel, &caps.memory_allocation);
    let platform = Platform { console: diagnostics.console, ipc, alarm: timers.driver };

    let mut processes = ProcessTable::new();
    load_processes(region, images, arena, &mut processes, FAULT_RESPONSE, &caps.process_management);

    proof {
        reveal_strlit("Initialization complete. Entering main loop\r");
    }
    log.log(String::from_str("Initialization complete. Entering main loop\r"));

    let ghost adm = admissions(images@, region.len as nat, arena@.len());
    let mut k: usize = 0;
    while k < NUM_PROCS
        invariant
            k <= NUM_PROCS,
            processes.wf(),
            adm == admissions(images@, region.len as nat, arena@.len()),
            forall|j: int|
                0 <= j < adm.len() ==> match #[trigger] processes.slots@[j] {
                    Some(p) => is_admitted(p, adm[j], images@, region.base as nat, FAULT_RESPONSE),
                    None => false,
                },
            forall|j: int| adm.len() <= j < NUM_PROCS ==> (#[trigger] processes.slots@[j]) is None,
            log.writer_attached,
            log.pending@.len() == 0,
            processes.partitions_arena(arena@.len()),
            log.written@.len() == 1 + (if k < adm.len() { k as int } else { adm.len() as int }),
            log.written@[0]@ == init_line(),
            forall|j: int|
                0 <= j < k && j < adm.len() ==> (#[trigger] log.written@[j + 1])@ == hook_line(
                    j as nat,
                    images@[adm[j].image as int].name@,
                    (region.base + adm[j].flash_offset) as nat,
                ),
        decreases NUM_PROCS - k,
    {
        if let Some(p) = processes.get(k) {
            let line = load_process_hook(k as u32, p.name.as_str(), p.flash_non_protected_start());
            log.log(line);
        }
        k = k + 1;
    }
    Board { kernel, platform, processes, log, main_loop: caps.main_loop }
}

} // verus!
