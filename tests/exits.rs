use vmm::{classify, dispatch, is_terminal, next_state, ExitEvent, RawExit, RunState, VmmError};

fn kind(e: &ExitEvent) -> &'static str {
    match e {
        ExitEvent::IoIn { .. } => "io_in",
        ExitEvent::IoOut { .. } => "io_out",
        ExitEvent::MmioRead { .. } => "mmio_read",
        ExitEvent::MmioWrite { .. } => "mmio_write",
        ExitEvent::Halt => "halt",
        ExitEvent::Unhandled { .. } => "unhandled",
    }
}

#[test]
fn classify_io_in_keeps_port_and_width() {
    match classify(RawExit::IoIn(0x3f8, vec![0])) {
        ExitEvent::IoIn { port, width } => {
            assert_eq!(port, 0x3f8);
            assert_eq!(width, 1);
        }
        other => panic!("wrong event: {:?}", other),
    }
}

#[test]
fn classify_io_out_keeps_port_and_data() {
    match classify(RawExit::IoOut(0x3f8, vec![b'5'])) {
        ExitEvent::IoOut { port, data } => {
            assert_eq!(port, 0x3f8);
            assert_eq!(data, vec![b'5']);
        }
        other => panic!("wrong event: {:?}", other),
    }
}

#[test]
fn classify_mmio_read_keeps_addr_and_width() {
    match classify(RawExit::MmioRead(0x8000, vec![0, 0, 0, 0])) {
        ExitEvent::MmioRead { addr, width } => {
            assert_eq!(addr, 0x8000);
            assert_eq!(width, 4);
        }
        other => panic!("wrong event: {:?}", other),
    }
}

#[test]
fn classify_mmio_write_keeps_addr_and_data() {
    match classify(RawExit::MmioWrite(0x8000, vec![1, 2, 3, 4])) {
        ExitEvent::MmioWrite { addr, data } => {
            assert_eq!(addr, 0x8000);
            assert_eq!(data, vec![1, 2, 3, 4]);
        }
        other => panic!("wrong event: {:?}", other),
    }
}

#[test]
fn classify_halt_and_other() {
    assert!(matches!(classify(RawExit::Hlt), ExitEvent::Halt));
    match classify(RawExit::Other("Shutdown".to_string())) {
        ExitEvent::Unhandled { reason } => assert_eq!(reason, "Shutdown"),
        other => panic!("wrong event: {:?}", other),
    }
}

#[test]
fn every_raw_exit_maps_to_its_own_variant() {
    let cases = vec![
        (RawExit::IoIn(1, vec![]), "io_in"),
        (RawExit::IoOut(1, vec![]), "io_out"),
        (RawExit::MmioRead(1, vec![]), "mmio_read"),
        (RawExit::MmioWrite(1, vec![]), "mmio_write"),
        (RawExit::Hlt, "halt"),
        (RawExit::Other(String::new()), "unhandled"),
    ];
    for (raw, expected) in cases {
        assert_eq!(kind(&classify(raw)), expected);
    }
}

#[test]
fn running_transitions() {
    let io = ExitEvent::IoOut { port: 1, data: vec![7] };
    assert_eq!(next_state(RunState::Running, &io), RunState::Running);
    assert_eq!(next_state(RunState::Running, &ExitEvent::Halt), RunState::Halted);
    let bad = ExitEvent::Unhandled { reason: "Shutdown".to_string() };
    assert_eq!(next_state(RunState::Running, &bad), RunState::Faulted);
}

#[test]
fn terminal_states_stay() {
    let io = ExitEvent::IoIn { port: 1, width: 1 };
    assert_eq!(next_state(RunState::Halted, &io), RunState::Halted);
    assert_eq!(next_state(RunState::Faulted, &ExitEvent::Halt), RunState::Faulted);
    assert!(is_terminal(RunState::Halted));
    assert!(is_terminal(RunState::Faulted));
    assert!(!is_terminal(RunState::Running));
}

#[test]
fn dispatch_outcomes() {
    assert!(matches!(dispatch(ExitEvent::MmioRead { addr: 0x8000, width: 1 }), Ok(RunState::Running)));
    assert!(matches!(dispatch(ExitEvent::Halt), Ok(RunState::Halted)));
    match dispatch(ExitEvent::Unhandled { reason: "FailEntry".to_string() }) {
        Err(VmmError::Unhandled(reason)) => assert_eq!(reason, "FailEntry"),
        other => panic!("wrong outcome: {:?}", other),
    }
}

/// Runs the dispatcher over a sequence of exits as the run loop would.
fn drive(exits: Vec<RawExit>) -> (Vec<&'static str>, RunState, usize) {
    let mut seen = Vec::new();
    let mut state = RunState::Running;
    let mut resumes = 0;
    for raw in exits {
        if is_terminal(state) {
            break;
        }
        resumes += 1;
        let event = classify(raw);
        seen.push(kind(&event));
        state = next_state(state, &event);
    }
    (seen, state, resumes)
}

#[test]
fn demo_program_exit_sequence() {
    let exits = vec![
        RawExit::IoOut(0x3f8, vec![b'5']),
        RawExit::IoIn(0x3f8, vec![0]),
        RawExit::MmioWrite(0x8000, vec![0]),
        RawExit::MmioRead(0x8000, vec![0]),
        RawExit::Hlt,
    ];
    let (seen, state, resumes) = drive(exits);
    assert_eq!(seen, vec!["io_out", "io_in", "mmio_write", "mmio_read", "halt"]);
    assert_eq!(state, RunState::Halted);
    assert_eq!(resumes, 5);
}

#[test]
fn single_halt_stops_after_one_resume() {
    let (seen, state, resumes) = drive(vec![RawExit::Hlt, RawExit::IoIn(1, vec![0])]);
    assert_eq!(seen, vec!["halt"]);
    assert_eq!(state, RunState::Halted);
    assert_eq!(resumes, 1);
}

#[test]
fn unhandled_exit_faults_the_run() {
    let (seen, state, resumes) =
        drive(vec![RawExit::IoOut(1, vec![0]), RawExit::Other("Shutdown".to_string()), RawExit::Hlt]);
    assert_eq!(seen, vec!["io_out", "unhandled"]);
    assert_eq!(state, RunState::Faulted);
    assert_eq!(resumes, 2);
}
