use vstd::prelude::*;

use crate::state::SvfState;

verus! {

/// The levels the TRST signal can be put in.
#[derive(Clone, Copy, Debug, PartialEq, Eq, Structural)]
pub enum TrstMode {
    On,
    Off,
    Z,
    Absent,
}

/// The clock a RUNTEST counts.
#[derive(Clone, Copy, Debug, PartialEq, Eq, Structural)]
pub enum RunClock {
    /// The test clock.
    Tck,
    /// The system clock.
    Sck,
}

/// How a RUNTEST says how long to run.
#[derive(Clone, Copy, Debug, PartialEq, Eq, Structural)]
pub enum RunTestForm {
    /// A number of cycles of a clock, perhaps with a time beside it
    /// (`with_time`).
    Clocked { run_count: u32, run_clk: RunClock, with_time: bool },
    /// A time alone.
    Timed,
}

/// The data of a scan or of a header or trailer pattern. Absent vectors
/// keep the value the previous command of the same kind gave.
#[derive(Debug)]
pub struct Pattern {
    /// The number of bits scanned.
    pub length: u32,
    /// The bits shifted in.
    pub tdi: Option<Vec<u8>>,
    /// The bits expected out; when absent nothing is compared.
    pub tdo: Option<Vec<u8>>,
    /// The bits of the capture that are compared.
    pub mask: Option<Vec<u8>>,
    /// The input bits that are driven.
    pub smask: Option<Vec<u8>>,
}

/// One SVF command, as the parser hands it over.
#[derive(Debug)]
pub enum Command {
    EndDR(SvfState),
    EndIR(SvfState),
    Frequency,
    HDR(Pattern),
    HIR(Pattern),
    PIO,
    PIOMap,
    RunTest { run_state: Option<SvfState>, form: RunTestForm, end_state: Option<SvfState> },
    SDR(Pattern),
    SIR(Pattern),
    State { path: Option<Vec<SvfState>>, end: SvfState },
    TDR(Pattern),
    TIR(Pattern),
    TRST(TrstMode),
}

} // verus!
