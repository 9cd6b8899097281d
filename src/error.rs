use vstd::prelude::*;

use crate::register::Register;

verus! {

/// An SVF feature that the player recognises but does not carry out.
#[derive(Clone, Copy, Debug, PartialEq, Eq, Structural)]
pub enum Feature {
    /// Driving the TRST signal to anything but its off level.
    TrstControl,
    /// A STATE command that spells out its path.
    StatePath,
    /// A header pattern of nonzero length (HIR, HDR).
    HeaderPattern(Register),
    /// A trailer pattern of nonzero length (TIR, TDR).
    TrailerPattern(Register),
    /// A RUNTEST given, in whole or in part, as a time.
    TimedRunTest,
    /// A RUNTEST clocked by the system clock.
    SystemClock,
    /// Parallel test vectors.
    Pio,
    /// The column map of parallel test vectors.
    PioMap,
}

/// Why a run stops.
#[derive(Clone, Copy, Debug, PartialEq, Eq, Structural)]
pub enum SvfError {
    /// The command asks for a feature the player does not have.
    Unimplemented(Feature),
    /// A scan of zero bits.
    ZeroLengthShift(Register),
    /// A scan whose input data or shift mask, after the update, does not
    /// hold exactly the bytes its length needs.
    LengthMismatch(Register),
    /// Captured bits disagree with the expected ones under the mask, first at
    /// byte `index`.
    Mismatch { register: Register, index: usize },
}

} // verus!
