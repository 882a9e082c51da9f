use falcon_lib::{
    advance, channel_buffers, check_execution, encode, inputs_after_signing, next_action,
    prepare_inputs, read_inputs, run_guest, select_mode, Action, Event, Mode, Phase, PublicRecord,
    RunError, UsageError,
};

const MESSAGE: &[u8] = b"Hello, SP1";

#[test]
fn select_mode_takes_exactly_one_flag() {
    assert_eq!(select_mode(true, false), Ok(Mode::Execute));
    assert_eq!(select_mode(false, true), Ok(Mode::Prove));
    assert_eq!(select_mode(false, false), Err(UsageError::NoMode));
    assert_eq!(select_mode(true, true), Err(UsageError::BothModes));
}

#[test]
fn channel_buffers_keeps_the_order() {
    assert_eq!(
        channel_buffers(vec![1], vec![2, 2], vec![3, 3, 3]),
        vec![vec![1], vec![2, 2], vec![3, 3, 3]]
    );
}

#[test]
fn guest_reads_what_the_host_wrote() {
    let inputs = read_inputs(channel_buffers(vec![1], vec![2], vec![3])).unwrap();
    assert_eq!(inputs.vrfy_key, vec![1]);
    assert_eq!(inputs.signature, vec![2]);
    assert_eq!(inputs.msg, vec![3]);
}

#[test]
fn run_stops_without_a_signature() {
    assert_eq!(inputs_after_signing(vec![1], None, vec![3]), Err(RunError::Signing));
    assert_eq!(
        inputs_after_signing(vec![1], Some(vec![2]), vec![3]),
        Ok(vec![vec![1], vec![2], vec![3]])
    );
}

#[test]
fn prepared_inputs_hold_key_signature_and_message() {
    let buffers = prepare_inputs(MESSAGE.to_vec()).unwrap();
    assert_eq!(buffers.len(), 3);
    assert_eq!(buffers[0].len(), 897);
    assert_eq!(buffers[0][0], 0x09);
    assert_eq!(buffers[1].len(), 666);
    assert!(buffers[1][0] == 0x39 || buffers[1][0] == 0);
    assert_eq!(buffers[2], MESSAGE.to_vec());
}

#[test]
fn execution_of_prepared_inputs_is_verified() {
    let buffers = prepare_inputs(MESSAGE.to_vec()).unwrap();
    let key = buffers[0].clone();
    let sig = buffers[1].clone();
    let out = run_guest(buffers).unwrap();
    let record = check_execution(&out).unwrap();
    assert!(record.verified);
    assert_eq!(record.msg, MESSAGE.to_vec());
    assert_eq!(record.vrfy_key, key);
    assert_eq!(record.signature, sig);
}

#[test]
fn execution_with_a_substituted_key_is_not_verified() {
    let buffers = prepare_inputs(MESSAGE.to_vec()).unwrap();
    let other = prepare_inputs(MESSAGE.to_vec()).unwrap();
    let out = run_guest(vec![other[0].clone(), buffers[1].clone(), buffers[2].clone()]).unwrap();
    assert_eq!(check_execution(&out), Err(RunError::NotVerified));
}

#[test]
fn check_execution_tells_the_three_outcomes() {
    let mut record =
        PublicRecord { vrfy_key: vec![1], signature: vec![2], msg: vec![3], verified: true };
    assert_eq!(check_execution(&encode(&record)), Ok(record.clone()));
    record.verified = false;
    assert_eq!(check_execution(&encode(&record)), Err(RunError::NotVerified));
    assert_eq!(check_execution(&[1, 2, 3]), Err(RunError::Encoding));
    let mut bytes = encode(&record);
    bytes.pop();
    assert_eq!(check_execution(&bytes), Err(RunError::Encoding));
}

#[test]
fn execute_run_passes_through_its_phases() {
    let mode = Mode::Execute;
    assert_eq!(next_action(Phase::Idle, mode), Action::PrepareInputs);
    assert_eq!(advance(Phase::Idle, mode, Event::InputsReady), Some(Phase::InputsPrepared));
    assert_eq!(next_action(Phase::InputsPrepared, mode), Action::ExecuteAndCheck);
    assert_eq!(
        advance(Phase::InputsPrepared, mode, Event::ExecutionChecked),
        Some(Phase::Executed)
    );
    assert_eq!(next_action(Phase::Executed, mode), Action::Report);
    assert_eq!(advance(Phase::Executed, mode, Event::ReportShown), Some(Phase::Reported));
    assert_eq!(next_action(Phase::Reported, mode), Action::Stop);
}

#[test]
fn prove_run_passes_through_its_phases() {
    let mode = Mode::Prove;
    assert_eq!(next_action(Phase::Idle, mode), Action::PrepareInputs);
    assert_eq!(advance(Phase::Idle, mode, Event::InputsReady), Some(Phase::InputsPrepared));
    assert_eq!(next_action(Phase::InputsPrepared, mode), Action::ProveAndVerify);
    assert_eq!(
        advance(Phase::InputsPrepared, mode, Event::ProofVerified),
        Some(Phase::ProvedAndVerified)
    );
    assert_eq!(next_action(Phase::ProvedAndVerified, mode), Action::Report);
    assert_eq!(advance(Phase::ProvedAndVerified, mode, Event::ReportShown), Some(Phase::Reported));
    assert_eq!(next_action(Phase::Reported, mode), Action::Stop);
}

#[test]
fn events_that_are_not_due_lead_nowhere() {
    assert_eq!(advance(Phase::InputsPrepared, Mode::Execute, Event::ProofVerified), None);
    assert_eq!(advance(Phase::InputsPrepared, Mode::Prove, Event::ExecutionChecked), None);
    assert_eq!(advance(Phase::Idle, Mode::Execute, Event::ExecutionChecked), None);
    assert_eq!(advance(Phase::Executed, Mode::Execute, Event::InputsReady), None);
    assert_eq!(advance(Phase::InputsPrepared, Mode::Prove, Event::InputsReady), None);
    for event in [Event::InputsReady, Event::ExecutionChecked, Event::ProofVerified, Event::ReportShown] {
        assert_eq!(advance(Phase::Reported, Mode::Execute, event), None);
        assert_eq!(advance(Phase::Reported, Mode::Prove, event), None);
    }
}
