use pinetime::board::{reset_handler, FAULT_RESPONSE};
use pinetime::capability::CapabilityIssuer;
use pinetime::clock::{ClockAction, ClockSequencer, ClockSource, ClockStatus, ClocksStarted};
use pinetime::loader::{
    load_processes, FaultResponse, ImageHeader, ProcessTable, StorageRegion, APP_MEMORY_SIZE,
    NUM_PROCS,
};

fn image(name: &str, total_size: u32, min_ram: u32, well_formed: bool) -> ImageHeader {
    ImageHeader { total_size, min_ram, name: name.to_string(), well_formed }
}

fn status(low: bool, high: bool) -> ClockStatus {
    ClockStatus { low_started: low, high_started: high }
}

fn start_clocks() -> ClocksStarted {
    let mut seq = ClockSequencer::new();
    for _ in 0..6 {
        let a = seq.step(status(true, true));
        assert!(!matches!(a, ClockAction::Done(_)));
    }
    match seq.step(status(true, true)) {
        ClockAction::Done(t) => t,
        other => panic!("clocks not started: {:?}", other),
    }
}

fn load(region: StorageRegion, images: &Vec<ImageHeader>) -> ProcessTable {
    let caps = CapabilityIssuer::new().issue();
    let arena = vec![0u8; APP_MEMORY_SIZE];
    let mut table = ProcessTable::new();
    load_processes(&region, images, &arena, &mut table, FaultResponse::Stop, &caps.process_management);
    table
}

const REGION: StorageRegion = StorageRegion { base: 0x0003_0000, len: 0x0004_0000 };

#[test]
fn clock_sequence_order() {
    let mut seq = ClockSequencer::new();
    let s = status(false, false);
    assert_eq!(seq.step(s), ClockAction::LowStop);
    assert_eq!(seq.step(s), ClockAction::HighStop);
    assert_eq!(seq.step(s), ClockAction::LowSetSource(ClockSource::Xtal));
    assert_eq!(seq.step(s), ClockAction::LowStart);
    assert_eq!(seq.step(s), ClockAction::HighSetSource(ClockSource::Xtal));
    assert_eq!(seq.step(s), ClockAction::HighStart);
    assert_eq!(seq.step(s), ClockAction::PollStatus);
}

#[test]
fn clock_done_only_when_both_started() {
    let mut seq = ClockSequencer::new();
    for _ in 0..6 {
        seq.step(status(false, false));
    }
    assert_eq!(seq.step(status(true, false)), ClockAction::PollStatus);
    assert_eq!(seq.step(status(false, true)), ClockAction::PollStatus);
    assert_eq!(seq.step(status(false, false)), ClockAction::PollStatus);
    match seq.step(status(true, true)) {
        ClockAction::Done(t) => assert_eq!(t.observed(), status(true, true)),
        other => panic!("expected Done, got {:?}", other),
    }
}

#[test]
fn table_capacity_is_not_exceeded() {
    let images: Vec<ImageHeader> =
        (0..5).map(|k| image(&format!("app{}", k), 0x1000, 1024, true)).collect();
    let table = load(REGION, &images);
    assert_eq!(table.num_occupied(), NUM_PROCS);
    for k in 0..NUM_PROCS {
        assert_eq!(table.get(k).unwrap().name, format!("app{}", k));
    }
    assert!(table.slots.iter().all(|p| p.as_ref().map(|p| p.name != "app4").unwrap_or(true)));
}

#[test]
fn malformed_image_is_skipped() {
    let images = vec![image("bad", 0x800, 1024, false), image("good", 0x1000, 2048, true)];
    let table = load(REGION, &images);
    let p = table.get(0).unwrap();
    assert_eq!(p.name, "good");
    assert_eq!(p.flash_start, REGION.base + 0x800);
    assert_eq!(p.mem_start, 0);
    assert_eq!(p.mem_size, 2048);
    assert_eq!(p.fault_response, FaultResponse::Stop);
    assert_eq!(table.num_occupied(), 1);
}

#[test]
fn oversized_image_is_skipped() {
    let images = vec![
        image("big", 0x1000, 40000, true),
        image("a", 0x1000, 30000, true),
        image("b", 0x1000, 4000, true),
        image("c", 0x1000, 2768, true),
    ];
    let table = load(REGION, &images);
    assert_eq!(table.num_occupied(), 2);
    assert_eq!(table.get(0).unwrap().name, "a");
    assert_eq!(table.get(1).unwrap().name, "c");
    assert_eq!(table.get(1).unwrap().mem_start, 30000);
    assert_eq!(table.get(1).unwrap().flash_start, REGION.base + 0x3000);
}

#[test]
fn regions_are_disjoint_and_inside_arena() {
    let images = vec![
        image("a", 0x400, 100, true),
        image("b", 0x400, 0, true),
        image("c", 0x400, 5000, true),
        image("d", 0x400, 27668, true),
    ];
    let table = load(REGION, &images);
    let procs: Vec<_> = table.slots.iter().flatten().collect();
    assert_eq!(procs.len(), 4);
    for (i, p) in procs.iter().enumerate() {
        assert!(p.mem_start + p.mem_size <= APP_MEMORY_SIZE);
        for q in procs.iter().skip(i + 1) {
            assert!(p.mem_start + p.mem_size <= q.mem_start || q.mem_start + q.mem_size <= p.mem_start);
        }
    }
}

#[test]
fn scan_stops_at_zero_size_and_region_end() {
    let images = vec![image("a", 0x1000, 10, true), image("end", 0, 10, true), image("c", 0x1000, 10, true)];
    let table = load(REGION, &images);
    assert_eq!(table.num_occupied(), 1);

    let small = StorageRegion { base: 0x1000, len: 0x1800 };
    let images = vec![image("a", 0x1000, 10, true), image("b", 0x1000, 10, true)];
    let table = load(small, &images);
    assert_eq!(table.num_occupied(), 1);
    assert_eq!(table.get(0).unwrap().name, "a");
}

#[test]
fn no_valid_image_boots_with_empty_table() {
    let images = vec![image("x", 0x1000, 10, false), image("y", 0x1000, 10, false)];
    let board = reset_handler(CapabilityIssuer::new(), start_clocks(), &REGION, &images, &vec![0u8; APP_MEMORY_SIZE]);
    assert_eq!(board.processes.num_occupied(), 0);
    assert!(board.processes.slots.iter().all(|s| s.is_none()));
    assert_eq!(board.log.written, vec!["Initialization complete. Entering main loop\r".to_string()]);
}

#[test]
fn single_shell_image_end_to_end() {
    let images = vec![image("shell", 4096, 2048, true)];
    let arena = vec![0u8; APP_MEMORY_SIZE];
    let board = reset_handler(CapabilityIssuer::new(), start_clocks(), &REGION, &images, &arena);
    let p = board.processes.get(0).unwrap();
    assert_eq!(p.name, "shell");
    assert_eq!(p.flash_non_protected_start(), REGION.base);
    assert_eq!(p.fault_response, FAULT_RESPONSE);
    assert_eq!(board.processes.num_occupied(), 1);
    assert!(board.log.writer_attached);
    assert_eq!(board.log.written.len(), 2);
    let line = &board.log.written[1];
    assert!(line.contains("shell"));
    assert!(line.contains("0x00030000"));
    assert_eq!(line, "Loading app 0: name \"shell\", `.text` 0x00030000");
}

#[test]
fn boot_logs_one_line_per_admitted_slot() {
    let images = vec![image("one", 0x2000, 100, true), image("bad", 0x100, 1, false), image("two", 0x1000, 100, true)];
    let board = reset_handler(CapabilityIssuer::new(), start_clocks(), &REGION, &images, &vec![0u8; APP_MEMORY_SIZE]);
    assert_eq!(
        board.log.written,
        vec![
            "Initialization complete. Entering main loop\r".to_string(),
            "Loading app 0: name \"one\", `.text` 0x00030000".to_string(),
            "Loading app 1: name \"two\", `.text` 0x00032100".to_string(),
        ]
    );
    assert_eq!(board.platform.alarm.grant.id, 0);
    assert_eq!(board.platform.console.grant.id, 1);
    assert_eq!(board.platform.ipc.grant.id, 2);
    assert_eq!(board.kernel.num_grants, 3);
}
