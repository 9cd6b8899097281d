use vstd::prelude::*;

verus! {

/// The sixteen TAP states, under the names that SVF files give them.
#[derive(Clone, Copy, Debug, PartialEq, Eq, Structural)]
pub enum SvfState {
    Reset,
    Idle,
    DrSelect,
    DrCapture,
    DrShift,
    DrExit1,
    DrPause,
    DrExit2,
    DrUpdate,
    IrSelect,
    IrCapture,
    IrShift,
    IrExit1,
    IrPause,
    IrExit2,
    IrUpdate,
}

/// The sixteen TAP states, as the controller that drives the cable names them.
#[derive(Clone, Copy, Debug, PartialEq, Eq, Structural)]
pub enum JtagState {
    Reset,
    Idle,
    SelectDR,
    CaptureDR,
    ShiftDR,
    Exit1DR,
    PauseDR,
    Exit2DR,
    UpdateDR,
    SelectIR,
    CaptureIR,
    ShiftIR,
    Exit1IR,
    PauseIR,
    Exit2IR,
    UpdateIR,
}

/// The controller state that stands for an SVF state.
pub open spec fn jtag_of(s: SvfState) -> JtagState {
    match s {
        SvfState::Reset => JtagState::Reset,
        SvfState::Idle => JtagState::Idle,
        SvfState::DrSelect => JtagState::SelectDR,
        SvfState::DrCapture => JtagState::CaptureDR,
        SvfState::DrShift => JtagState::ShiftDR,
        SvfState::DrExit1 => JtagState::Exit1DR,
        SvfState::DrPause => JtagState::PauseDR,
        SvfState::DrExit2 => JtagState::Exit2DR,
        SvfState::DrUpdate => JtagState::UpdateDR,
        SvfState::IrSelect => JtagState::SelectIR,
        SvfState::IrCapture => JtagState::CaptureIR,
        SvfState::IrShift => JtagState::ShiftIR,
        SvfState::IrExit1 => JtagState::Exit1IR,
        SvfState::IrPause => JtagState::PauseIR,
        SvfState::IrExit2 => JtagState::Exit2IR,
        SvfState::IrUpdate => JtagState::UpdateIR,
    }
}

/// The SVF state that names a controller state.
pub open spec fn svf_of(j: JtagState) -> SvfState {
    match j {
        JtagState::Reset => SvfState::Reset,
        JtagState::Idle => SvfState::Idle,
        JtagState::SelectDR => SvfState::DrSelect,
        JtagState::CaptureDR => SvfState::DrCapture,
        JtagState::ShiftDR => SvfState::DrShift,
        JtagState::Exit1DR => SvfState::DrExit1,
        JtagState::PauseDR => SvfState::DrPause,
        JtagState::Exit2DR => SvfState::DrExit2,
        JtagState::UpdateDR => SvfState::DrUpdate,
        JtagState::SelectIR => SvfState::IrSelect,
        JtagState::CaptureIR => SvfState::IrCapture,
        JtagState::ShiftIR => SvfState::IrShift,
        JtagState::Exit1IR => SvfState::IrExit1,
        JtagState::PauseIR => SvfState::IrPause,
        JtagState::Exit2IR => SvfState::IrExit2,
        JtagState::UpdateIR => SvfState::IrUpdate,
    }
}

/// Translates an SVF state into the controller's state.
pub fn to_jtag_state(s: SvfState) -> (r: JtagState)
    ensures
        r == jtag_of(s),
{
    match s {
        SvfState::Reset => JtagState::Reset,
        SvfState::Idle => JtagState::Idle,
        SvfState::DrSelect => JtagState::SelectDR,
        SvfState::DrCapture => JtagState::CaptureDR,
        SvfState::DrShift => JtagState::ShiftDR,
        SvfState::DrExit1 => JtagState::Exit1DR,
        SvfState::DrPause => JtagState::PauseDR,
        SvfState::DrExit2 => JtagState::Exit2DR,
        SvfState::DrUpdate => JtagState::UpdateDR,
        SvfState::IrSelect => JtagState::SelectIR,
        SvfState::IrCapture => JtagState::CaptureIR,
        SvfState::IrShift => JtagState::ShiftIR,
        SvfState::IrExit1 => JtagState::Exit1IR,
        SvfState::IrPause => JtagState::PauseIR,
        SvfState::IrExit2 => JtagState::Exit2IR,
        SvfState::IrUpdate => JtagState::UpdateIR,
    }
}

/// Translates a controller state back into its SVF name.
pub fn from_jtag_state(j: JtagState) -> (r: SvfState)
    ensures
        r == svf_of(j),
{
    match j {
        JtagState::Reset => SvfState::Reset,
        JtagState::Idle => SvfState::Idle,
        JtagState::SelectDR => SvfState::DrSelect,
        JtagState::CaptureDR => SvfState::DrCapture,
        JtagState::ShiftDR => SvfState::DrShift,
        JtagState::Exit1DR => SvfState::DrExit1,
        JtagState::PauseDR => SvfState::DrPause,
        JtagState::Exit2DR => SvfState::DrExit2,
        JtagState::UpdateDR => SvfState::DrUpdate,
        JtagState::SelectIR => SvfState::IrSelect,
        JtagState::CaptureIR => SvfState::IrCapture,
        JtagState::ShiftIR => SvfState::IrShift,
        JtagState::Exit1IR => SvfState::IrExit1,
        JtagState::PauseIR => SvfState::IrPause,
        JtagState::Exit2IR => SvfState::IrExit2,
        JtagState::UpdateIR => SvfState::IrUpdate,
    }
}

/// Translating an SVF state to the controller and back gives the state one
/// started from, and the same holds from the controller's side: the
/// translation is a bijection between the two sets of sixteen states.
pub proof fn lemma_translation_bijective()
    ensures
        forall|s: SvfState| #[trigger] svf_of(jtag_of(s)) == s,
        forall|j: JtagState| #[trigger] jtag_of(svf_of(j)) == j,
{
    assert forall|s: SvfState| #[trigger] svf_of(jtag_of(s)) == s by {
        match s {
            _ => {},
        }
    }
    assert forall|j: JtagState| #[trigger] jtag_of(svf_of(j)) == j by {
        match j {
            _ => {},
        }
    }
}

} // verus!
