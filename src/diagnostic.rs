//! The console and debug-log channel over the debugger's memory transport,
//! and the deferred-call dispatcher it registers with.

use vstd::prelude::*;

use crate::capability::MemoryAllocationCapability;
use crate::kernel::{Grant, Kernel};
use crate::timer::{AlarmClient, TimerSubsystem, VirtualMuxAlarm};

verus! {

/// Driver number of the process-facing console.
pub const CONSOLE_DRIVER_NUM: usize = 1;

/// Number of clients the deferred-call dispatcher can hold.
pub const DEFERRED_CALL_SLOTS: usize = 2;

/// Bytes of the transport's up (device to host) buffer.
pub const RTT_UP_BUFFER_LEN: usize = 1024;

/// Bytes of the transport's down (host to device) buffer.
pub const RTT_DOWN_BUFFER_LEN: usize = 32;

/// A slot of the deferred-call dispatcher.
#[derive(Clone, Copy, Debug, PartialEq, Eq, Structural)]
pub struct DeferredCallHandle {
    pub slot: usize,
}

/// The dispatcher of bottom-half work: a fixed number of client slots.
#[derive(Debug)]
pub struct DeferredCallRegistry {
    pub taken: Vec<bool>,
}

impl DeferredCallRegistry {
    pub open spec fn wf(&self) -> bool {
        self.taken@.len() == DEFERRED_CALL_SLOTS
    }

    pub open spec fn has_free(&self) -> bool {
        exists|k: int| 0 <= k < self.taken@.len() && !#[trigger] self.taken@[k]
    }

    /// A dispatcher with every slot free.
    pub fn new() -> (r: DeferredCallRegistry)
        ensures
            r.wf(),
            forall|k: int| 0 <= k < DEFERRED_CALL_SLOTS ==> !#[trigger] r.taken@[k],
    {
        let mut taken: Vec<bool> = Vec::new();
        let mut k: usize = 0;
        while k < DEFERRED_CALL_SLOTS
            invariant
                k <= DEFERRED_CALL_SLOTS,
                taken@.len() == k,
                forall|j: int| 0 <= j < k ==> !#[trigger] taken@[j],
            decreases DEFERRED_CALL_SLOTS - k,
        {
            taken.push(false);
            k = k + 1;
        }
        DeferredCallRegistry { taken }
    }

    /// Takes the first free slot, or returns `None` when all are taken.
    pub fn register(&mut self) -> (r: Option<DeferredCallHandle>)
        requires
            old(self).wf(),
        ensures
            final(self).wf(),
            r is None <==> !old(self).has_free(),
            r is None ==> final(self).taken@ == old(self).taken@,
            r matches Some(h) ==> h.slot < DEFERRED_CALL_SLOTS && !old(self).taken@[h.slot as int]
                && (forall|k: int| 0 <= k < h.slot ==> #[trigger] old(self).taken@[k])
                && final(self).taken@ == old(self).taken@.update(h.slot as int, true),
    {
        let mut k: usize = 0;
        while k < self.taken.len()
            invariant
                self.wf(),
                self.taken@ == old(self).taken@,
                k <= self.taken@.len(),
                forall|j: int| 0 <= j < k ==> #[trigger] self.taken@[j],
            decreases self.taken@.len() - k,
        {
            if !self.taken[k] {
                self.taken.set(k, true);
                return Some(DeferredCallHandle { slot: k });
            }
            k = k + 1;
        }
        None
    }
}

/// The memory block that the host debugger reads and writes.
#[derive(Debug)]
pub struct RttMemory {
    pub up_len: usize,
    pub down_len: usize,
}

/// The serial transport over the debugger's memory block; it times out
/// transmissions with its own virtual alarm.
#[derive(Debug)]
pub struct SeggerRtt {
    pub memory: RttMemory,
    pub timeout_alarm: VirtualMuxAlarm,
}

/// Shares the transport among several devices, one transmission at a time.
#[derive(Debug)]
pub struct UartMux {
    pub deferred_call: DeferredCallHandle,
    pub num_devices: usize,
}

/// One user of the shared transport.
#[derive(Clone, Copy, Debug, PartialEq, Eq, Structural)]
pub struct UartDevice {
    pub index: usize,
    pub receiver: bool,
}

impl UartMux {
    /// Adds a device with the next index.
    pub fn new_device(&mut self, receiver: bool) -> (r: UartDevice)
        requires
            old(self).num_devices < usize::MAX,
        ensures
            r.index == old(self).num_devices,
            r.receiver == receiver,
            final(self).num_devices == old(self).num_devices + 1,
            final(self).deferred_call == old(self).deferred_call,
    {
        let r = UartDevice { index: self.num_devices, receiver };
        self.num_devices = self.num_devices + 1;
        r
    }
}

/// The console that processes reach by `CONSOLE_DRIVER_NUM`.
#[derive(Debug)]
pub struct Console {
    pub device: UartDevice,
    pub grant: Grant,
}

/// The writer behind the supervisor's debug log.
#[derive(Debug)]
pub struct DebugWriter {
    pub device: UartDevice,
}

/// The transport, its multiplexer, the console and the debug writer.
#[derive(Debug)]
pub struct DiagnosticChannel {
    pub rtt: SeggerRtt,
    pub uart_mux: UartMux,
    pub console: Console,
    pub debug_writer: DebugWriter,
}

impl DiagnosticChannel {
    /// Console and debug writer are distinct devices of the one multiplexer,
    /// which serialises them; the transport times out on a virtual alarm of
    /// its own.
    pub open spec fn wired(&self) -> bool {
        &&& self.console.device.index < self.uart_mux.num_devices
        &&& self.debug_writer.device.index < self.uart_mux.num_devices
        &&& self.console.device.index != self.debug_writer.device.index
        &&& self.console.device.receiver
        &&& self.rtt.timeout_alarm.client == AlarmClient::TransportTimeout
        &&& self.uart_mux.deferred_call.slot < DEFERRED_CALL_SLOTS
    }

    /// Builds, in order, the transport's memory block, the transport on a new
    /// virtual alarm, the multiplexer (registered with the deferred-call
    /// dispatcher), the console with a new grant, and the debug writer.
    pub fn build(
        timers: &mut TimerSubsystem,
        deferred: &mut DeferredCallRegistry,
        kernel: &mut Kernel,
        capability: &MemoryAllocationCapability,
    ) -> (r: DiagnosticChannel)
        requires
            old(timers).wired(),
            old(timers).mux.num_virtual < usize::MAX,
            old(deferred).wf(),
            old(deferred).has_free(),
            old(kernel).num_grants < usize::MAX,
        ensures
            r.wired(),
            final(timers).wired(),
            final(timers).mux.num_virtual == old(timers).mux.num_virtual + 1,
            final(timers).rtc == old(timers).rtc,
            final(timers).driver_alarm == old(timers).driver_alarm,
            final(timers).driver == old(timers).driver,
            r.rtt.timeout_alarm.index == old(timers).mux.num_virtual,
            final(deferred).wf(),
            r.console.grant.id == old(kernel).num_grants,
            final(kernel).num_grants == old(kernel).num_grants + 1,
    {
        let memory = RttMemory { up_len: RTT_UP_BUFFER_LEN, down_len: RTT_DOWN_BUFFER_LEN };
        let mut timeout_alarm = timers.mux.new_virtual();
        timeout_alarm.client = AlarmClient::TransportTimeout;
        let rtt = SeggerRtt { memory, timeout_alarm };
        let deferred_call = deferred.register().unwrap();
        let mut uart_mux = UartMux { deferred_call, num_devices: 0 };
        let console_device = uart_mux.new_device(true);
        let grant = kernel.create_grant(capability);
        let console = Console { device: console_device, grant };
        let writer_device = uart_mux.new_device(false);
        let debug_writer = DebugWriter { device: writer_device };
        DiagnosticChannel { rtt, uart_mux, console, debug_writer }
    }
}

/// The supervisor's debug log. Before a writer is attached, lines are kept
/// in order; attaching sends them out first.
#[derive(Debug)]
pub struct DebugLog {
    pub writer_attached: bool,
    pub written: Vec<String>,
    pub pending: Vec<String>,
}

impl DebugLog {
    /// A log with no writer and nothing in it.
    pub fn new() -> (r: DebugLog)
        ensures
            !r.writer_attached,
            r.written@.len() == 0,
            r.pending@.len() == 0,
    {
        DebugLog { writer_attached: false, written: Vec::new(), pending: Vec::new() }
    }

    /// Logs one line: written when a writer is attached, kept otherwise.
    pub fn log(&mut self, line: String)
        ensures
            final(self).writer_attached == old(self).writer_attached,
            old(self).writer_attached ==> final(self).written@ == old(self).written@.push(line)
                && final(self).pending@ == old(self).pending@,
            !old(self).writer_attached ==> final(self).pending@ == old(self).pending@.push(line)
                && final(self).written@ == old(self).written@,
    {
        if self.writer_attached {
            self.written.push(line);
        } else {
            self.pending.push(line);
        }
    }

    /// Attaches the writer and sends the kept lines, in order.
    pub fn attach_writer(&mut self, _writer: &DebugWriter)
        ensures
            final(self).writer_attached,
            final(self).written@ == old(self).written@ + old(self).pending@,
            final(self).pending@.len() == 0,
    {
        let mut kept: Vec<String> = Vec::new();
        std::mem::swap(&mut kept, &mut self.pending);
        self.written.append(&mut kept);
        self.writer_attached = true;
    }
}

} // verus!
