//! The hardware timer, its multiplexer and the user-facing alarm driver.

use vstd::prelude::*;

use crate::capability::MemoryAllocationCapability;
use crate::clock::ClocksStarted;
use crate::kernel::{Grant, Kernel};

verus! {

/// Driver number of the user-facing alarm driver.
pub const ALARM_DRIVER_NUM: usize = 0;

/// Who receives an alarm's callbacks.
#[derive(Clone, Copy, Debug, PartialEq, Eq, Structural)]
pub enum AlarmClient {
    Unset,
    /// The multiplexer that fans the hardware timer out.
    Mux,
    /// The user-facing alarm driver.
    Driver,
    /// The transmit timeout of the console transport.
    TransportTimeout,
}

/// The hardware real-time counter.
#[derive(Debug)]
pub struct Rtc {
    pub running: bool,
    pub client: AlarmClient,
}

/// Fans the one hardware timer out to virtual alarms, numbered in the order
/// they were made.
#[derive(Debug)]
pub struct MuxAlarm {
    pub num_virtual: usize,
}

/// One logical alarm on the multiplexer.
#[derive(Debug)]
pub struct VirtualMuxAlarm {
    pub index: usize,
    pub client: AlarmClient,
}

impl MuxAlarm {
    /// Makes a new virtual alarm with the next index and no client.
    pub fn new_virtual(&mut self) -> (r: VirtualMuxAlarm)
        requires
            old(self).num_virtual < usize::MAX,
        ensures
            r.index == old(self).num_virtual,
            r.client == AlarmClient::Unset,
            final(self).num_virtual == old(self).num_virtual + 1,
    {
        let r = VirtualMuxAlarm { index: self.num_virtual, client: AlarmClient::Unset };
        self.num_virtual = self.num_virtual + 1;
        r
    }
}

/// The alarm driver that processes reach by `ALARM_DRIVER_NUM`.
#[derive(Debug)]
pub struct AlarmDriver {
    /// Index of the virtual alarm it drives.
    pub alarm_index: usize,
    pub grant: Grant,
}

/// The hardware timer, its multiplexer, and the user-facing alarm driver.
#[derive(Debug)]
pub struct TimerSubsystem {
    pub rtc: Rtc,
    pub mux: MuxAlarm,
    pub driver_alarm: VirtualMuxAlarm,
    pub driver: AlarmDriver,
}

impl TimerSubsystem {
    /// The timer runs and delivers to the mux; the driver's virtual alarm
    /// belongs to the mux and delivers to the driver, which drives it back.
    pub open spec fn wired(&self) -> bool {
        &&& self.rtc.running
        &&& self.rtc.client == AlarmClient::Mux
        &&& self.driver_alarm.index < self.mux.num_virtual
        &&& self.driver_alarm.client == AlarmClient::Driver
        &&& self.driver.alarm_index == self.driver_alarm.index
    }

    /// Starts the hardware timer, puts the multiplexer on it, and derives the
    /// user-facing alarm driver, backed by a new grant. Requires evidence that
    /// the clocks run, since the timer counts the low-frequency clock.
    pub fn build(
        _clocks: &ClocksStarted,
        kernel: &mut Kernel,
        capability: &MemoryAllocationCapability,
    ) -> (r: TimerSubsystem)
        requires
            old(kernel).num_grants < usize::MAX,
        ensures
            r.wired(),
            r.mux.num_virtual == 1,
            r.driver.grant.id == old(kernel).num_grants,
            final(kernel).num_grants == old(kernel).num_grants + 1,
    {
        let mut rtc = Rtc { running: false, client: AlarmClient::Unset };
        rtc.running = true;
        let mut mux = MuxAlarm { num_virtual: 0 };
        rtc.client = AlarmClient::Mux;
        let mut driver_alarm = mux.new_virtual();
        let grant = kernel.create_grant(capability);
        let driver = AlarmDriver { alarm_index: driver_alarm.index, grant };
        driver_alarm.client = AlarmClient::Driver;
        TimerSubsystem { rtc, mux, driver_alarm, driver }
    }
}

} // verus!
