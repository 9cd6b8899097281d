use svf_player::command::{Command, Pattern, RunClock, RunTestForm, TrstMode};
use svf_player::error::{Feature, SvfError};
use svf_player::player::{Plan, Svf};
use svf_player::register::{Register, RegisterContext};
use svf_player::runtest::{batch_idle_cycles, RUN_TEST_BATCH};
use svf_player::shift::{final_bits, mask_bytes, verify_capture, Check};
use svf_player::state::{from_jtag_state, to_jtag_state, JtagState, SvfState};

const ALL_STATES: [SvfState; 16] = [
    SvfState::Reset,
    SvfState::Idle,
    SvfState::DrSelect,
    SvfState::DrCapture,
    SvfState::DrShift,
    SvfState::DrExit1,
    SvfState::DrPause,
    SvfState::DrExit2,
    SvfState::DrUpdate,
    SvfState::IrSelect,
    SvfState::IrCapture,
    SvfState::IrShift,
    SvfState::IrExit1,
    SvfState::IrPause,
    SvfState::IrExit2,
    SvfState::IrUpdate,
];

fn pattern(length: u32, tdi: Option<Vec<u8>>, tdo: Option<Vec<u8>>, mask: Option<Vec<u8>>, smask: Option<Vec<u8>>) -> Pattern {
    Pattern { length, tdi, tdo, mask, smask }
}

fn clocked(run_count: u32) -> RunTestForm {
    RunTestForm::Clocked { run_count, run_clk: RunClock::Tck, with_time: false }
}

#[test]
fn translation_round_trips_all_states() {
    let mut seen = Vec::new();
    for s in ALL_STATES {
        let j = to_jtag_state(s);
        assert_eq!(from_jtag_state(j), s);
        assert!(!seen.contains(&j));
        seen.push(j);
    }
    assert_eq!(to_jtag_state(SvfState::DrPause), JtagState::PauseDR);
    assert_eq!(to_jtag_state(SvfState::IrShift), JtagState::ShiftIR);
}

#[test]
fn update_with_only_tdi_keeps_masks() {
    let mut ctx = RegisterContext::new();
    ctx.apply_update(Some(vec![0xff]), Some(vec![0x0f]), Some(vec![0x12]));
    ctx.apply_update(None, None, Some(vec![0x34]));
    assert_eq!(ctx.smask, vec![0xff]);
    assert_eq!(ctx.mask, vec![0x0f]);
    assert_eq!(ctx.tdi, vec![0x34]);
    ctx.apply_update(None, None, None);
    assert_eq!(ctx.smask, vec![0xff]);
    assert_eq!(ctx.mask, vec![0x0f]);
    assert_eq!(ctx.tdi, vec![0x34]);
}

#[test]
fn final_bits_of_lengths() {
    for len in 1..8u32 {
        assert_eq!(final_bits(len), len as u8);
    }
    assert_eq!(final_bits(8), 8);
    assert_eq!(final_bits(16), 8);
    assert_eq!(final_bits(24), 8);
    assert_eq!(final_bits(13), 5);
    assert_eq!(final_bits(0), 8);
}

#[test]
fn zero_length_scan_is_refused() {
    let mut svf = Svf::new();
    let r = svf.run_command(Command::SIR(pattern(0, Some(vec![1]), None, None, Some(vec![1]))));
    assert_eq!(r.unwrap_err(), SvfError::ZeroLengthShift(Register::Instruction));
    assert!(svf.sir.tdi.is_empty());
    let r = svf.run_command(Command::SDR(pattern(0, None, None, None, None)));
    assert_eq!(r.unwrap_err(), SvfError::ZeroLengthShift(Register::Data));
}

#[test]
fn masking_ands_each_byte() {
    let tdi = vec![0xf3, 0x5a, 0x81];
    let smask = vec![0x3c, 0xff, 0x7e];
    assert_eq!(mask_bytes(&tdi, &smask), vec![0x30, 0x5a, 0x00]);
    assert_eq!(mask_bytes(&tdi, &vec![0xff]), vec![0xf3]);
    assert_eq!(mask_bytes(&vec![], &smask), Vec::<u8>::new());
}

#[test]
fn capture_passes_under_high_mask() {
    let check = Check { register: Register::Data, expected: vec![0b1010_0000], mask: vec![0b1111_0000] };
    assert_eq!(verify_capture(&check, &vec![0b1010_1010]), Ok(()));
}

#[test]
fn capture_fails_under_low_mask() {
    let check = Check { register: Register::Data, expected: vec![0b1010_0000], mask: vec![0b0000_1111] };
    assert_eq!(
        verify_capture(&check, &vec![0b1010_1010]),
        Err(SvfError::Mismatch { register: Register::Data, index: 0 })
    );
}

#[test]
fn capture_mismatch_names_first_byte() {
    let check = Check { register: Register::Instruction, expected: vec![0x11, 0x22, 0x33], mask: vec![0xff, 0x0f, 0xff] };
    assert_eq!(verify_capture(&check, &vec![0x11, 0xf2, 0x33]), Ok(()));
    assert_eq!(
        verify_capture(&check, &vec![0x11, 0x23, 0x30]),
        Err(SvfError::Mismatch { register: Register::Instruction, index: 1 })
    );
}

#[test]
fn run_test_batches_idle_clocks() {
    assert_eq!(RUN_TEST_BATCH, 100);
    assert_eq!(batch_idle_cycles(250), vec![100, 100, 50]);
    assert_eq!(batch_idle_cycles(200), vec![100, 100]);
    assert_eq!(batch_idle_cycles(7), vec![7]);
    assert_eq!(batch_idle_cycles(0), Vec::<u32>::new());
    let mut svf = Svf::new();
    let plan = svf
        .run_command(Command::RunTest { run_state: Some(SvfState::DrPause), form: clocked(250), end_state: Some(SvfState::Reset) })
        .unwrap();
    match plan {
        Plan::RunTest { run_state, batches, end_state } => {
            assert_eq!(run_state, JtagState::PauseDR);
            assert_eq!(batches, vec![100, 100, 50]);
            assert_eq!(end_state, JtagState::Reset);
        }
        other => panic!("unexpected plan {:?}", other),
    }
}

#[test]
fn run_test_states_are_sticky() {
    let mut svf = Svf::new();
    svf.run_command(Command::RunTest { run_state: Some(SvfState::IrPause), form: clocked(1), end_state: None }).unwrap();
    let plan = svf.run_command(Command::RunTest { run_state: None, form: clocked(3), end_state: None }).unwrap();
    match plan {
        Plan::RunTest { run_state, batches, end_state } => {
            assert_eq!(run_state, JtagState::PauseIR);
            assert_eq!(batches, vec![3]);
            assert_eq!(end_state, JtagState::Idle);
        }
        other => panic!("unexpected plan {:?}", other),
    }
}

#[test]
fn unsupported_run_tests_fail() {
    let mut svf = Svf::new();
    let r = svf.run_command(Command::RunTest { run_state: Some(SvfState::Reset), form: RunTestForm::Timed, end_state: None });
    assert_eq!(r.unwrap_err(), SvfError::Unimplemented(Feature::TimedRunTest));
    assert_eq!(svf.run_state, JtagState::Idle);
    let form = RunTestForm::Clocked { run_count: 5, run_clk: RunClock::Tck, with_time: true };
    let r = svf.run_command(Command::RunTest { run_state: None, form, end_state: None });
    assert_eq!(r.unwrap_err(), SvfError::Unimplemented(Feature::TimedRunTest));
    let form = RunTestForm::Clocked { run_count: 5, run_clk: RunClock::Sck, with_time: false };
    let r = svf.run_command(Command::RunTest { run_state: None, form, end_state: None });
    assert_eq!(r.unwrap_err(), SvfError::Unimplemented(Feature::SystemClock));
}

#[test]
fn unsupported_commands_fail() {
    let mut svf = Svf::new();
    let cases = vec![
        (Command::TRST(TrstMode::On), Feature::TrstControl),
        (Command::TRST(TrstMode::Z), Feature::TrstControl),
        (Command::State { path: Some(vec![SvfState::DrSelect]), end: SvfState::DrPause }, Feature::StatePath),
        (Command::HIR(pattern(4, None, None, None, None)), Feature::HeaderPattern(Register::Instruction)),
        (Command::HDR(pattern(4, None, None, None, None)), Feature::HeaderPattern(Register::Data)),
        (Command::TIR(pattern(4, None, None, None, None)), Feature::TrailerPattern(Register::Instruction)),
        (Command::TDR(pattern(4, None, None, None, None)), Feature::TrailerPattern(Register::Data)),
        (Command::PIO, Feature::Pio),
        (Command::PIOMap, Feature::PioMap),
    ];
    for (cmd, feature) in cases {
        assert_eq!(svf.run_command(cmd).unwrap_err(), SvfError::Unimplemented(feature));
    }
}

#[test]
fn accepted_configuration_commands() {
    let mut svf = Svf::new();
    assert!(matches!(svf.run_command(Command::TRST(TrstMode::Off)), Ok(Plan::Configure)));
    assert!(matches!(svf.run_command(Command::HIR(pattern(0, None, None, None, None))), Ok(Plan::Configure)));
    assert!(matches!(svf.run_command(Command::TDR(pattern(0, None, None, None, None))), Ok(Plan::Configure)));
    assert!(matches!(svf.run_command(Command::Frequency), Ok(Plan::WarnFrequency)));
    assert!(matches!(
        svf.run_command(Command::State { path: None, end: SvfState::IrPause }),
        Ok(Plan::Goto(JtagState::PauseIR))
    ));
    svf.run_command(Command::EndIR(SvfState::IrPause)).unwrap();
    svf.run_command(Command::EndDR(SvfState::DrPause)).unwrap();
    assert_eq!(svf.endir, JtagState::PauseIR);
    assert_eq!(svf.enddr, JtagState::PauseDR);
}

#[test]
fn scan_plan_uses_sticky_vectors() {
    let mut svf = Svf::new();
    svf.run_command(Command::EndDR(SvfState::DrPause)).unwrap();
    let first = pattern(12, Some(vec![0xab, 0x0c]), None, Some(vec![0xff, 0x0f]), Some(vec![0x0f, 0xff]));
    svf.run_command(Command::SDR(first)).unwrap();
    let second = pattern(12, Some(vec![0xcd, 0x0e]), Some(vec![0x34, 0x12]), None, None);
    match svf.run_command(Command::SDR(second)).unwrap() {
        Plan::Shift { register, shift_state, data, final_bits, end_state, check } => {
            assert_eq!(register, Register::Data);
            assert_eq!(shift_state, JtagState::ShiftDR);
            assert_eq!(data, vec![0x0d, 0x0e]);
            assert_eq!(final_bits, 4);
            assert_eq!(end_state, JtagState::PauseDR);
            let check = check.unwrap();
            assert_eq!(check.register, Register::Data);
            assert_eq!(check.expected, vec![0x34, 0x12]);
            assert_eq!(check.mask, vec![0xff, 0x0f]);
        }
        other => panic!("unexpected plan {:?}", other),
    }
    assert_eq!(svf.sdr.tdi, vec![0xcd, 0x0e]);
    assert!(svf.sir.tdi.is_empty());
}

#[test]
fn run_stops_at_first_failure() {
    let mut svf = Svf::new();
    let cmds = vec![
        Command::EndIR(SvfState::IrPause),
        Command::TRST(TrstMode::On),
        Command::EndDR(SvfState::DrPause),
        Command::SIR(pattern(8, Some(vec![0xff]), None, None, Some(vec![0xff]))),
    ];
    let (plans, err) = svf.run_commands(cmds);
    assert_eq!(plans.len(), 1);
    assert_eq!(err, Some(SvfError::Unimplemented(Feature::TrstControl)));
    assert_eq!(svf.endir, JtagState::PauseIR);
    assert_eq!(svf.enddr, JtagState::Idle);
    assert!(svf.sir.tdi.is_empty());

    let mut svf = Svf::new();
    let cmds = vec![
        Command::State { path: Some(vec![]), end: SvfState::Reset },
        Command::EndDR(SvfState::DrPause),
    ];
    let (plans, err) = svf.run_commands(cmds);
    assert!(plans.is_empty());
    assert_eq!(err, Some(SvfError::Unimplemented(Feature::StatePath)));
    assert_eq!(svf.enddr, JtagState::Idle);
}

#[test]
fn commands_run_in_given_order() {
    let mut svf = Svf::new();
    let cmds = vec![
        Command::SIR(pattern(8, Some(vec![0x11]), None, None, Some(vec![0xff]))),
        Command::SIR(pattern(8, Some(vec![0x22]), None, None, None)),
        Command::EndIR(SvfState::IrPause),
        Command::SIR(pattern(8, None, None, None, Some(vec![0x0f]))),
    ];
    let (plans, err) = svf.run_commands(cmds);
    assert_eq!(err, None);
    let shifted: Vec<(Vec<u8>, JtagState)> = plans
        .into_iter()
        .filter_map(|p| match p {
            Plan::Shift { data, end_state, .. } => Some((data, end_state)),
            _ => None,
        })
        .collect();
    assert_eq!(
        shifted,
        vec![
            (vec![0x11], JtagState::Idle),
            (vec![0x22], JtagState::Idle),
            (vec![0x02], JtagState::PauseIR),
        ]
    );
}

#[test]
fn scan_vectors_must_fit_length() {
    let mut svf = Svf::new();
    let r = svf.run_command(Command::SIR(pattern(8, Some(vec![0x01]), None, None, None)));
    assert_eq!(r.unwrap_err(), SvfError::LengthMismatch(Register::Instruction));
    assert!(svf.sir.tdi.is_empty());
    let r = svf.run_command(Command::SDR(pattern(9, Some(vec![0x01]), None, None, Some(vec![0x01]))));
    assert_eq!(r.unwrap_err(), SvfError::LengthMismatch(Register::Data));
    let r = svf.run_command(Command::SDR(pattern(16, Some(vec![0x01, 0x02]), None, None, Some(vec![0xff]))));
    assert_eq!(r.unwrap_err(), SvfError::LengthMismatch(Register::Data));
    assert!(svf.run_command(Command::SDR(pattern(9, Some(vec![0x01, 0x01]), None, None, Some(vec![0xff, 0x01])))).is_ok());
    assert_eq!(svf.sdr.smask, vec![0xff, 0x01]);
}
