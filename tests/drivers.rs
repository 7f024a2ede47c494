use pinetime::capability::CapabilityIssuer;
use pinetime::diagnostic::{
    Console, DebugLog, DebugWriter, DeferredCallHandle, DeferredCallRegistry, DiagnosticChannel,
    UartDevice, CONSOLE_DRIVER_NUM,
};
use pinetime::format::load_process_hook;
use pinetime::kernel::{Grant, Kernel};
use pinetime::platform::{DriverRef, Ipc, Platform};
use pinetime::timer::{AlarmClient, AlarmDriver, TimerSubsystem, ALARM_DRIVER_NUM};
use pinetime::clock::{ClockAction, ClockSequencer, ClockStatus};

fn platform() -> Platform {
    Platform {
        console: Console { device: UartDevice { index: 0, receiver: true }, grant: Grant { id: 1 } },
        ipc: Ipc { grant: Grant { id: 2 } },
        alarm: AlarmDriver { alarm_index: 0, grant: Grant { id: 0 } },
    }
}

fn kind(d: Option<DriverRef>) -> &'static str {
    match d {
        Some(DriverRef::Console(_)) => "console",
        Some(DriverRef::Alarm(_)) => "alarm",
        None => "none",
    }
}

#[test]
fn lookup_routes_fixed_numbers() {
    let p = platform();
    assert_eq!(kind(p.lookup(CONSOLE_DRIVER_NUM)), "console");
    assert_eq!(kind(p.lookup(ALARM_DRIVER_NUM)), "alarm");
    assert_eq!(kind(p.lookup(1)), "console");
    assert_eq!(kind(p.lookup(0)), "alarm");
    assert_eq!(kind(p.lookup(2)), "none");
    assert_eq!(kind(p.lookup(0x10000)), "none");
    assert_eq!(kind(p.lookup(usize::MAX)), "none");
    match p.lookup(CONSOLE_DRIVER_NUM) {
        Some(DriverRef::Console(c)) => assert_eq!(c.grant.id, 1),
        _ => panic!("console expected"),
    }
}

#[test]
fn lookup_is_stable_over_time() {
    let p = platform();
    for n in 0..40usize {
        let first = kind(p.lookup(n));
        let _ = p.lookup(n + 1);
        assert_eq!(kind(p.lookup(n)), first);
    }
}

#[test]
fn with_driver_passes_the_lookup() {
    let p = platform();
    assert_eq!(p.with_driver(ALARM_DRIVER_NUM, |d| kind(d)), "alarm");
    assert_eq!(p.with_driver(7, |d| d.is_none()), true);
}

#[test]
fn hook_line_format() {
    assert_eq!(
        load_process_hook(3, "blink", 0x0004_2a0f),
        "Loading app 3: name \"blink\", `.text` 0x00042a0f"
    );
    assert_eq!(load_process_hook(12, "", 0), "Loading app 12: name \"\", `.text` 0x00000000");
    assert_eq!(
        load_process_hook(u32::MAX, "x", u32::MAX),
        "Loading app 4294967295: name \"x\", `.text` 0xffffffff"
    );
}

#[test]
fn deferred_call_slots_run_out() {
    let mut reg = DeferredCallRegistry::new();
    assert_eq!(reg.register(), Some(DeferredCallHandle { slot: 0 }));
    assert_eq!(reg.register(), Some(DeferredCallHandle { slot: 1 }));
    assert_eq!(reg.register(), None);
    assert_eq!(reg.taken, vec![true, true]);
}

#[test]
fn debug_log_buffers_until_writer() {
    let mut log = DebugLog::new();
    log.log("early".to_string());
    assert!(log.written.is_empty());
    assert_eq!(log.pending, vec!["early".to_string()]);
    log.attach_writer(&DebugWriter { device: UartDevice { index: 1, receiver: false } });
    log.log("late".to_string());
    assert_eq!(log.written, vec!["early".to_string(), "late".to_string()]);
    assert!(log.pending.is_empty());
}

#[test]
fn grants_are_distinct() {
    let caps = CapabilityIssuer::new().issue();
    let mut k = Kernel::new();
    let a = k.create_grant(&caps.memory_allocation);
    let b = k.create_grant(&caps.memory_allocation);
    assert_ne!(a, b);
    assert_eq!(k.num_grants, 2);
}

#[test]
fn timer_and_console_wiring() {
    let caps = CapabilityIssuer::new().issue();
    let mut seq = ClockSequencer::new();
    let clocks = loop {
        if let ClockAction::Done(t) = seq.step(ClockStatus { low_started: true, high_started: true }) {
            break t;
        }
    };
    let mut kernel = Kernel::new();
    let mut timers = TimerSubsystem::build(&clocks, &mut kernel, &caps.memory_allocation);
    assert!(timers.rtc.running);
    assert_eq!(timers.rtc.client, AlarmClient::Mux);
    assert_eq!(timers.driver_alarm.client, AlarmClient::Driver);
    assert_eq!(timers.driver.alarm_index, timers.driver_alarm.index);
    let mut deferred = DeferredCallRegistry::new();
    let diag = DiagnosticChannel::build(&mut timers, &mut deferred, &mut kernel, &caps.memory_allocation);
    assert_eq!(timers.mux.num_virtual, 2);
    assert_eq!(diag.rtt.timeout_alarm.index, 1);
    assert_eq!(diag.rtt.timeout_alarm.client, AlarmClient::TransportTimeout);
    assert_ne!(diag.console.device.index, diag.debug_writer.device.index);
    assert_eq!(diag.uart_mux.num_devices, 2);
    assert_eq!(diag.uart_mux.deferred_call.slot, 0);
    assert_eq!(kernel.num_grants, 2);
}
