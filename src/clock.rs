//! Start-up of the low- and high-frequency clocks, as a state machine that
//! the hardware layer drives.

use vstd::prelude::*;

verus! {

/// Oscillator sources that a clock domain can be fed from.
#[derive(Clone, Copy, Debug, PartialEq, Eq, Structural)]
pub enum ClockSource {
    /// The internal RC oscillator.
    Rc,
    /// The external crystal.
    Xtal,
    /// Synthesised from the high-frequency clock.
    Synth,
}

/// A register operation that the sequencer asks the hardware layer to do.
#[derive(Debug, PartialEq, Eq, Structural)]
pub enum ClockAction {
    LowStop,
    HighStop,
    LowSetSource(ClockSource),
    LowStart,
    HighSetSource(ClockSource),
    HighStart,
    /// Read both "started" flags and report them on the next step.
    PollStatus,
    /// Both domains were seen running; carries the evidence.
    Done(ClocksStarted),
}

/// The two "started" flags, read together.
#[derive(Clone, Copy, Debug, PartialEq, Eq, Structural)]
pub struct ClockStatus {
    pub low_started: bool,
    pub high_started: bool,
}

/// Evidence that both clock domains were observed running. Only the
/// sequencer creates it; building timers requires it.
#[derive(Debug, PartialEq, Eq, Structural)]
pub struct ClocksStarted {
    observed: ClockStatus,
}

impl ClocksStarted {
    #[verifier::type_invariant]
    spec fn both_seen(&self) -> bool {
        self.observed.low_started && self.observed.high_started
    }

    /// The status reading that showed both domains running.
    pub fn observed(&self) -> (r: ClockStatus)
        ensures
            r.low_started && r.high_started,
    {
        proof {
            use_type_invariant(self);
        }
        self.observed
    }
}

/// Where the start-up sequence stands.
#[derive(Clone, Copy, Debug, PartialEq, Eq, Structural)]
pub enum ClockPhase {
    StopLow,
    StopHigh,
    SelectLow,
    StartLow,
    SelectHigh,
    StartHigh,
    WaitStarted,
}

/// Brings the low- and high-frequency clocks up from the external crystal:
/// stop both, select the crystal for each, start each, then poll until both
/// report started. There is no timeout.
#[derive(Debug)]
pub struct ClockSequencer {
    pub phase: ClockPhase,
}

/// The phase that follows `p` when no status decides.
pub open spec fn next_phase(p: ClockPhase) -> ClockPhase {
    match p {
        ClockPhase::StopLow => ClockPhase::StopHigh,
        ClockPhase::StopHigh => ClockPhase::SelectLow,
        ClockPhase::SelectLow => ClockPhase::StartLow,
        ClockPhase::StartLow => ClockPhase::SelectHigh,
        ClockPhase::SelectHigh => ClockPhase::StartHigh,
        ClockPhase::StartHigh => ClockPhase::WaitStarted,
        ClockPhase::WaitStarted => ClockPhase::WaitStarted,
    }
}

/// The register operation issued in a phase before the wait.
pub open spec fn command_of(p: ClockPhase) -> ClockAction {
    match p {
        ClockPhase::StopLow => ClockAction::LowStop,
        ClockPhase::StopHigh => ClockAction::HighStop,
        ClockPhase::SelectLow => ClockAction::LowSetSource(ClockSource::Xtal),
        ClockPhase::StartLow => ClockAction::LowStart,
        ClockPhase::SelectHigh => ClockAction::HighSetSource(ClockSource::Xtal),
        ClockPhase::StartHigh => ClockAction::HighStart,
        ClockPhase::WaitStarted => ClockAction::PollStatus,
    }
}

impl ClockSequencer {
    /// A sequencer at the start of the sequence.
    pub fn new() -> (r: ClockSequencer)
        ensures
            r.phase == ClockPhase::StopLow,
    {
        ClockSequencer { phase: ClockPhase::StopLow }
    }

    /// One step. Before the wait, `status` is ignored and the next register
    /// operation is returned. While waiting, `Done` comes exactly when the
    /// status shows both domains started at once; otherwise the sequencer asks
    /// for another poll.
    pub fn step(&mut self, status: ClockStatus) -> (r: ClockAction)
        ensures
            old(self).phase != ClockPhase::WaitStarted ==> r == command_of(old(self).phase)
                && final(self).phase == next_phase(old(self).phase),
            old(self).phase == ClockPhase::WaitStarted ==> final(self).phase
                == ClockPhase::WaitStarted && (r is Done <==> (status.low_started
                && status.high_started)) && (!(r is Done) ==> r == ClockAction::PollStatus),
            r is Done ==> status.low_started && status.high_started,
    {
        match self.phase {
            ClockPhase::StopLow => {
                self.phase = ClockPhase::StopHigh;
                ClockAction::LowStop
            },
            ClockPhase::StopHigh => {
                self.phase = ClockPhase::SelectLow;
                ClockAction::HighStop
            },
            ClockPhase::SelectLow => {
                self.phase = ClockPhase::StartLow;
                ClockAction::LowSetSource(ClockSource::Xtal)
            },
            ClockPhase::StartLow => {
                self.phase = ClockPhase::SelectHigh;
                ClockAction::LowStart
            },
            ClockPhase::SelectHigh => {
                self.phase = ClockPhase::StartHigh;
                ClockAction::HighSetSource(ClockSource::Xtal)
            },
            ClockPhase::StartHigh => {
                self.phase = ClockPhase::WaitStarted;
                ClockAction::HighStart
            },
            ClockPhase::WaitStarted => {
                if status.low_started && status.high_started {
                    ClockAction::Done(ClocksStarted { observed: status })
                } else {
                    ClockAction::PollStatus
                }
            },
        }
    }
}

} // verus!
