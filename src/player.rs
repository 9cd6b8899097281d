use vstd::prelude::*;

use crate::command::{Command, Pattern, RunClock, RunTestForm, TrstMode};
use crate::error::{Feature, SvfError};
use crate::register::{opt_seq, Register, RegisterContext, RegisterView};
use crate::runtest::{batch_idle_cycles, idle_batches};
use crate::shift::{bytes_for, final_bits, final_bits_of, mask_bytes, masked, Check, CheckView};
use crate::state::{jtag_of, to_jtag_state, JtagState, SvfState};

verus! {

/// The interpreter's state between commands: the end states and the sticky
/// vectors of both registers.
#[derive(Debug)]
pub struct Svf {
    /// Where an instruction register scan ends.
    pub endir: JtagState,
    /// Where a data register scan ends.
    pub enddr: JtagState,
    /// Where a run test ends.
    pub end_state: JtagState,
    /// Where a run test clocks.
    pub run_state: JtagState,
    /// The sticky vectors of the instruction register.
    pub sir: RegisterContext,
    /// The sticky vectors of the data register.
    pub sdr: RegisterContext,
}

/// The contents of an [`Svf`].
pub struct SvfView {
    pub endir: JtagState,
    pub enddr: JtagState,
    pub end_state: JtagState,
    pub run_state: JtagState,
    pub sir: RegisterView,
    pub sdr: RegisterView,
}

impl View for Svf {
    type V = SvfView;

    open spec fn view(&self) -> SvfView {
        SvfView {
            endir: self.endir,
            enddr: self.enddr,
            end_state: self.end_state,
            run_state: self.run_state,
            sir: self.sir@,
            sdr: self.sdr@,
        }
    }
}

/// What a driver does on the cable to carry out one command.
#[derive(Debug)]
pub enum Plan {
    /// Nothing: the command only changed the configuration.
    Configure,
    /// Nothing, but warn that the requested clock frequency is not enforced.
    WarnFrequency,
    /// Move the controller to a state.
    Goto(JtagState),
    /// Move to `shift_state`, shift `data` out with `final_bits` valid bits
    /// in its last byte, leaving the shift state on the last bit, move to
    /// `end_state`, and hold the capture against `check` where there is one.
    Shift {
        register: Register,
        shift_state: JtagState,
        data: Vec<u8>,
        final_bits: u8,
        end_state: JtagState,
        check: Option<Check>,
    },
    /// Move to `run_state`, clock idle cycles in the given batches, in order,
    /// and move to `end_state`.
    RunTest { run_state: JtagState, batches: Vec<u32>, end_state: JtagState },
}

/// The contents of a [`Plan`].
pub enum PlanView {
    Configure,
    WarnFrequency,
    Goto(JtagState),
    Shift {
        register: Register,
        shift_state: JtagState,
        data: Seq<u8>,
        final_bits: u8,
        end_state: JtagState,
        check: Option<CheckView>,
    },
    RunTest { run_state: JtagState, batches: Seq<u32>, end_state: JtagState },
}

impl View for Plan {
    type V = PlanView;

    open spec fn view(&self) -> PlanView {
        match self {
            Plan::Configure => PlanView::Configure,
            Plan::WarnFrequency => PlanView::WarnFrequency,
            Plan::Goto(s) => PlanView::Goto(*s),
            Plan::Shift { register, shift_state, data, final_bits, end_state, check } => {
                PlanView::Shift {
                    register: *register,
                    shift_state: *shift_state,
                    data: data@,
                    final_bits: *final_bits,
                    end_state: *end_state,
                    check: match check {
                        Some(c) => Some(c@),
                        None => None,
                    },
                }
            },
            Plan::RunTest { run_state, batches, end_state } => PlanView::RunTest {
                run_state: *run_state,
                batches: batches@,
                end_state: *end_state,
            },
        }
    }
}

/// The controller state in which a register is shifted.
pub open spec fn shift_state_of(r: Register) -> JtagState {
    match r {
        Register::Instruction => JtagState::ShiftIR,
        Register::Data => JtagState::ShiftDR,
    }
}

/// The outcome of one command: the state after it and its plan, or the
/// error that stops the run.
pub type Step = Result<(SvfView, PlanView), SvfError>;

impl SvfView {
    /// The sticky vectors of a register.
    pub open spec fn reg(self, r: Register) -> RegisterView {
        match r {
            Register::Instruction => self.sir,
            Register::Data => self.sdr,
        }
    }

    /// The state with the vectors of one register replaced.
    pub open spec fn with_reg(self, r: Register, v: RegisterView) -> SvfView {
        match r {
            Register::Instruction => SvfView { sir: v, ..self },
            Register::Data => SvfView { sdr: v, ..self },
        }
    }

    /// Where a scan of a register ends.
    pub open spec fn end_of(self, r: Register) -> JtagState {
        match r {
            Register::Instruction => self.endir,
            Register::Data => self.enddr,
        }
    }
}

/// A scan: merge the given vectors into the register's sticky ones, drive
/// the input under the shift mask, end in the register's end state, and
/// compare with the expected output under the compare mask where one is given.
/// A scan of zero bits is refused, and so is one whose input data or shift
/// mask would not hold exactly the bytes of its length.
pub open spec fn plan_shift(s: SvfView, r: Register, p: Pattern) -> Step {
    let reg = s.reg(r).updated(opt_seq(p.smask), opt_seq(p.mask), opt_seq(p.tdi));
    if p.length == 0 {
        Err(SvfError::ZeroLengthShift(r))
    } else if reg.tdi.len() != bytes_for(p.length) || reg.smask.len() != bytes_for(p.length) {
        Err(SvfError::LengthMismatch(r))
    } else {
        Ok((
            s.with_reg(r, reg),
            PlanView::Shift {
                register: r,
                shift_state: shift_state_of(r),
                data: masked(reg.tdi, reg.smask),
                final_bits: final_bits_of(p.length),
                end_state: s.end_of(r),
                check: match p.tdo {
                    Some(t) => Some(CheckView { register: r, expected: t@, mask: reg.mask }),
                    None => None,
                },
            },
        ))
    }
}

/// A run test: the given run and end states replace the stored ones; only a
/// count of test clock cycles is carried out.
pub open spec fn plan_run_test(
    s: SvfView,
    run_state: Option<SvfState>,
    form: RunTestForm,
    end_state: Option<SvfState>,
) -> Step {
    match form {
        RunTestForm::Timed => Err(SvfError::Unimplemented(Feature::TimedRunTest)),
        RunTestForm::Clocked { run_count, run_clk, with_time } => {
            if with_time {
                Err(SvfError::Unimplemented(Feature::TimedRunTest))
            } else if run_clk != RunClock::Tck {
                Err(SvfError::Unimplemented(Feature::SystemClock))
            } else {
                let s2 = SvfView {
                    run_state: match run_state {
                        Some(st) => jtag_of(st),
                        None => s.run_state,
                    },
                    end_state: match end_state {
                        Some(st) => jtag_of(st),
                        None => s.end_state,
                    },
                    ..s
                };
                Ok((
                    s2,
                    PlanView::RunTest {
                        run_state: s2.run_state,
                        batches: idle_batches(run_count),
                        end_state: s2.end_state,
                    },
                ))
            }
        },
    }
}

/// A header or trailer pattern: accepted only when empty.
pub open spec fn plan_padding(s: SvfView, p: Pattern, unsupported: Feature) -> Step {
    if p.length == 0 {
        Ok((s, PlanView::Configure))
    } else {
        Err(SvfError::Unimplemented(unsupported))
    }
}

/// What one command does from state `s`.
pub open spec fn plan_command(s: SvfView, c: Command) -> Step {
    match c {
        Command::TRST(mode) => if mode == TrstMode::Off {
            Ok((s, PlanView::Configure))
        } else {
            Err(SvfError::Unimplemented(Feature::TrstControl))
        },
        Command::EndDR(st) => Ok((SvfView { enddr: jtag_of(st), ..s }, PlanView::Configure)),
        Command::EndIR(st) => Ok((SvfView { endir: jtag_of(st), ..s }, PlanView::Configure)),
        Command::State { path, end } => if path is Some {
            Err(SvfError::Unimplemented(Feature::StatePath))
        } else {
            Ok((s, PlanView::Goto(jtag_of(end))))
        },
        Command::HIR(p) => plan_padding(s, p, Feature::HeaderPattern(Register::Instruction)),
        Command::HDR(p) => plan_padding(s, p, Feature::HeaderPattern(Register::Data)),
        Command::TIR(p) => plan_padding(s, p, Feature::TrailerPattern(Register::Instruction)),
        Command::TDR(p) => plan_padding(s, p, Feature::TrailerPattern(Register::Data)),
        Command::SIR(p) => plan_shift(s, Register::Instruction, p),
        Command::SDR(p) => plan_shift(s, Register::Data, p),
        Command::RunTest { run_state, form, end_state } => plan_run_test(
            s,
            run_state,
            form,
            end_state,
        ),
        Command::Frequency => Ok((s, PlanView::WarnFrequency)),
        Command::PIO => Err(SvfError::Unimplemented(Feature::Pio)),
        Command::PIOMap => Err(SvfError::Unimplemented(Feature::PioMap)),
    }
}

/// The result of a call that carries out `step` on `old`: on success the
/// new state and the plan; on an error the error, with the state unchanged.
pub open spec fn follows_step(step: Step, old: SvfView, new: SvfView, r: Result<Plan, SvfError>) -> bool {
    match step {
        Ok((s2, p)) => new == s2 && r is Ok && r->Ok_0@ == p,
        Err(e) => new == old && r is Err && r->Err_0 == e,
    }
}

impl Svf {
    /// An interpreter with every end and run state at Idle and empty vectors.
    pub fn new() -> (r: Svf)
        ensures
            r@.endir == JtagState::Idle,
            r@.enddr == JtagState::Idle,
            r@.end_state == JtagState::Idle,
            r@.run_state == JtagState::Idle,
            r@.sir.smask.len() == 0 && r@.sir.mask.len() == 0 && r@.sir.tdi.len() == 0,
            r@.sdr.smask.len() == 0 && r@.sdr.mask.len() == 0 && r@.sdr.tdi.len() == 0,
    {
        Svf {
            endir: JtagState::Idle,
            enddr: JtagState::Idle,
            end_state: JtagState::Idle,
            run_state: JtagState::Idle,
            sir: RegisterContext::new(),
            sdr: RegisterContext::new(),
        }
    }

    /// Carries out a scan of register `r` (SIR or SDR).
    pub fn shift(&mut self, r: Register, p: Pattern) -> (res: Result<Plan, SvfError>)
        ensures
            follows_step(plan_shift(old(self)@, r, p), old(self)@, final(self)@, res),
    {
        let Pattern { length, tdi, tdo, mask, smask } = p;
        if length == 0 {
            return Err(SvfError::ZeroLengthShift(r));
        }
        let want: u64 = (length as u64 + 7) / 8;
        let cur = match r {
            Register::Instruction => &self.sir,
            Register::Data => &self.sdr,
        };
        let tdi_len: usize = match &tdi {
            Some(v) => v.len(),
            None => cur.tdi.len(),
        };
        let smask_len: usize = match &smask {
            Some(v) => v.len(),
            None => cur.smask.len(),
        };
        if tdi_len as u64 != want || smask_len as u64 != want {
            return Err(SvfError::LengthMismatch(r));
        }
        let bits = final_bits(length);
        let (shift_state, end_state) = match r {
            Register::Instruction => {
                self.sir.apply_update(smask, mask, tdi);
                (JtagState::ShiftIR, self.endir)
            },
            Register::Data => {
                self.sdr.apply_update(smask, mask, tdi);
                (JtagState::ShiftDR, self.enddr)
            },
        };
        let ctx = match r {
            Register::Instruction => &self.sir,
            Register::Data => &self.sdr,
        };
        let data = mask_bytes(&ctx.tdi, &ctx.smask);
        let check = match tdo {
            Some(t) => Some(Check { register: r, expected: t, mask: ctx.mask.clone() }),
            None => None,
        };
        proof {
            if check is Some {
                assert(check->Some_0.mask@ =~= ctx.mask@);
            }
        }
        Ok(Plan::Shift { register: r, shift_state, data, final_bits: bits, end_state, check })
    }

    /// Carries out a RUNTEST.
    pub fn run_test(
        &mut self,
        run_state: Option<SvfState>,
        form: RunTestForm,
        end_state: Option<SvfState>,
    ) -> (res: Result<Plan, SvfError>)
        ensures
            follows_step(plan_run_test(old(self)@, run_state, form, end_state), old(self)@, final(self)@, res),
    {
        match form {
            RunTestForm::Timed => Err(SvfError::Unimplemented(Feature::TimedRunTest)),
            RunTestForm::Clocked { run_count, run_clk, with_time } => {
                if with_time {
                    return Err(SvfError::Unimplemented(Feature::TimedRunTest));
                }
                if run_clk != RunClock::Tck {
                    return Err(SvfError::Unimplemented(Feature::SystemClock));
                }
                if let Some(st) = end_state {
                    self.end_state = to_jtag_state(st);
                }
                if let Some(st) = run_state {
                    self.run_state = to_jtag_state(st);
                }
                let batches = batch_idle_cycles(run_count);
                Ok(Plan::RunTest { run_state: self.run_state, batches, end_state: self.end_state })
            },
        }
    }

    /// Carries out one command: updates the configuration and returns what
    /// the driver is to do on the cable, or the error that stops the run.
    pub fn run_command(&mut self, cmd: Command) -> (res: Result<Plan, SvfError>)
        ensures
            follows_step(plan_command(old(self)@, cmd), old(self)@, final(self)@, res),
    {
        match cmd {
            Command::TRST(mode) => {
                if mode != TrstMode::Off {
                    Err(SvfError::Unimplemented(Feature::TrstControl))
                } else {
                    Ok(Plan::Configure)
                }
            },
            Command::EndDR(st) => {
                self.enddr = to_jtag_state(st);
                Ok(Plan::Configure)
            },
            Command::EndIR(st) => {
                self.endir = to_jtag_state(st);
                Ok(Plan::Configure)
            },
            Command::State { path, end } => {
                if path.is_some() {
                    Err(SvfError::Unimplemented(Feature::StatePath))
                } else {
                    Ok(Plan::Goto(to_jtag_state(end)))
                }
            },
            Command::HIR(p) => padding(p.length, Feature::HeaderPattern(Register::Instruction)),
            Command::HDR(p) => padding(p.length, Feature::HeaderPattern(Register::Data)),
            Command::TIR(p) => padding(p.length, Feature::TrailerPattern(Register::Instruction)),
            Command::TDR(p) => padding(p.length, Feature::TrailerPattern(Register::Data)),
            Command::SIR(p) => self.shift(Register::Instruction, p),
            Command::SDR(p) => self.shift(Register::Data, p),
            Command::RunTest { run_state, form, end_state } => self.run_test(run_state, form, end_state),
            Command::Frequency => Ok(Plan::WarnFrequency),
            Command::PIO => Err(SvfError::Unimplemented(Feature::Pio)),
            Command::PIOMap => Err(SvfError::Unimplemented(Feature::PioMap)),
        }
    }
}

/// A header or trailer pattern is accepted when it has no bits.
fn padding(length: u32, unsupported: Feature) -> (r: Result<Plan, SvfError>)
    ensures
        length == 0 ==> r is Ok && r->Ok_0@ == PlanView::Configure,
        length != 0 ==> r == Err::<Plan, SvfError>(SvfError::Unimplemented(unsupported)),
{
    if length == 0 {
        Ok(Plan::Configure)
    } else {
        Err(SvfError::Unimplemented(unsupported))
    }
}

} // verus!
