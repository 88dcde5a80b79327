//! vCPU exits: the plain image of what KVM reports, its classification into
//! the closed set of events the monitor handles, and the run-state machine.

use vstd::prelude::*;
use crate::error::VmmError;

verus! {

/// What a resumed vCPU handed back, with the data it carried copied out of
/// the shared run structure.
#[derive(Debug)]
pub enum RawExit {
    /// An `in` instruction on `port`; the buffer the guest will read.
    IoIn(u16, Vec<u8>),
    /// An `out` instruction on `port` with the bytes written.
    IoOut(u16, Vec<u8>),
    /// A read of an unbacked guest-physical address; the buffer to fill.
    MmioRead(u64, Vec<u8>),
    /// A write to an unbacked guest-physical address with the bytes written.
    MmioWrite(u64, Vec<u8>),
    /// The guest executed a halt instruction.
    Hlt,
    /// Any other exit, by its description.
    Other(String),
}

/// The event the dispatcher reacts to.
#[derive(Debug)]
pub enum ExitEvent {
    IoIn { port: u16, width: usize },
    IoOut { port: u16, data: Vec<u8> },
    MmioRead { addr: u64, width: usize },
    MmioWrite { addr: u64, data: Vec<u8> },
    Halt,
    Unhandled { reason: String },
}

/// The state of the run loop.
#[derive(PartialEq, Eq, Structural, Clone, Copy, Debug)]
pub enum RunState {
    Running,
    Halted,
    Faulted,
}

/// The event that a raw exit stands for.
pub open spec fn classified(raw: RawExit) -> ExitEvent {
    match raw {
        RawExit::IoIn(port, data) => ExitEvent::IoIn { port, width: data@.len() as usize },
        RawExit::IoOut(port, data) => ExitEvent::IoOut { port, data },
        RawExit::MmioRead(addr, data) => ExitEvent::MmioRead { addr, width: data@.len() as usize },
        RawExit::MmioWrite(addr, data) => ExitEvent::MmioWrite { addr, data },
        RawExit::Hlt => ExitEvent::Halt,
        RawExit::Other(reason) => ExitEvent::Unhandled { reason },
    }
}

/// Maps a raw exit to exactly one event; nothing is dropped.
pub fn classify(raw: RawExit) -> (r: ExitEvent)
    ensures
        r == classified(raw),
{
    match raw {
        RawExit::IoIn(port, data) => ExitEvent::IoIn { port, width: data.len() },
        RawExit::IoOut(port, data) => ExitEvent::IoOut { port, data },
        RawExit::MmioRead(addr, data) => ExitEvent::MmioRead { addr, width: data.len() },
        RawExit::MmioWrite(addr, data) => ExitEvent::MmioWrite { addr, data },
        RawExit::Hlt => ExitEvent::Halt,
        RawExit::Other(reason) => ExitEvent::Unhandled { reason },
    }
}

/// Number of event variants that `e` belongs to, counted one by one.
pub open spec fn variant_count(e: ExitEvent) -> int {
    (if e is IoIn { 1int } else { 0int }) + (if e is IoOut { 1int } else { 0int }) + (if e is MmioRead {
        1int
    } else {
        0int
    }) + (if e is MmioWrite { 1int } else { 0int }) + (if e is Halt { 1int } else { 0int }) + (
    if e is Unhandled {
        1int
    } else {
        0int
    })
}

/// Classification is total and exhaustive: every raw exit lands in exactly
/// one event variant, the one of its own kind, with its payload kept.
pub proof fn lemma_classify_exhaustive(raw: RawExit)
    ensures
        variant_count(classified(raw)) == 1,
        raw is IoIn <==> classified(raw) is IoIn,
        raw is IoOut <==> classified(raw) is IoOut,
        raw is MmioRead <==> classified(raw) is MmioRead,
        raw is MmioWrite <==> classified(raw) is MmioWrite,
        raw is Hlt <==> classified(raw) is Halt,
        raw is Other <==> classified(raw) is Unhandled,
{
}

/// The state after reacting to `event` in `state`.
pub open spec fn spec_next_state(state: RunState, event: ExitEvent) -> RunState {
    if state != RunState::Running {
        state
    } else {
        match event {
            ExitEvent::Halt => RunState::Halted,
            ExitEvent::Unhandled { .. } => RunState::Faulted,
            _ => RunState::Running,
        }
    }
}

/// One transition of the run loop: I/O and MMIO events are reported and the
/// guest keeps running, a halt ends the run, anything else is a fault.
/// The terminal states never change.
pub fn next_state(state: RunState, event: &ExitEvent) -> (r: RunState)
    ensures
        r == spec_next_state(state, *event),
{
    if state != RunState::Running {
        return state;
    }
    match event {
        ExitEvent::Halt => RunState::Halted,
        ExitEvent::Unhandled { .. } => RunState::Faulted,
        _ => RunState::Running,
    }
}

/// What the run loop does after `event` in the running state: keep running
/// on I/O and MMIO, stop normally on a halt, stop with the unhandled exit as
/// the error.
pub fn dispatch(event: ExitEvent) -> (r: Result<RunState, VmmError>)
    ensures
        match event {
            ExitEvent::Halt => r == Ok::<RunState, VmmError>(RunState::Halted),
            ExitEvent::Unhandled { reason } => r is Err && r->Err_0 == VmmError::Unhandled(reason),
            _ => r == Ok::<RunState, VmmError>(RunState::Running),
        },
        r is Ok ==> r->Ok_0 == spec_next_state(RunState::Running, event),
        r is Err <==> spec_next_state(RunState::Running, event) == RunState::Faulted,
{
    match event {
        ExitEvent::Halt => Ok(RunState::Halted),
        ExitEvent::Unhandled { reason } => Err(VmmError::Unhandled(reason)),
        _ => Ok(RunState::Running),
    }
}

/// True of the two states that end the run.
pub fn is_terminal(state: RunState) -> (r: bool)
    ensures
        r == (state != RunState::Running),
{
    state != RunState::Running
}

} // verus!
