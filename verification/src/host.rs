//! The host's decisions: which mode to run, what to put on the input channel,
//! what to make of the committed output, and the order of a run's phases.

use crate::codec::{decode, decode_record, EncodingError, PublicRecord};
use crate::generator::{generate_keys, sign_message};
use crate::primitive::{key_decodes, key_framed, signature_verifies};
use vstd::prelude::*;

verus! {

/// The two ways to run the guest.
#[derive(Debug, Clone, Copy, PartialEq, Eq)]
pub enum Mode {
    /// Run the guest and read what it commits, without a proof.
    Execute,
    /// Set up, prove, and verify the proof.
    Prove,
}

/// Neither mode was chosen, or both.
#[derive(Debug, Clone, Copy, PartialEq, Eq)]
pub enum UsageError {
    NoMode,
    BothModes,
}

/// Why a run stopped.
#[derive(Debug, Clone, Copy, PartialEq, Eq)]
pub enum RunError {
    /// The signing key did not decode, so there is no signature to run with.
    Signing,
    /// The committed output is not the encoding of a record.
    Encoding,
    /// The committed record says that the signature did not verify.
    NotVerified,
}

/// The mode that the two flags choose: exactly one of them must be set.
pub fn select_mode(execute: bool, prove: bool) -> (r: Result<Mode, UsageError>)
    ensures
        r == if execute && prove {
            Err::<Mode, UsageError>(UsageError::BothModes)
        } else if execute {
            Ok(Mode::Execute)
        } else if prove {
            Ok(Mode::Prove)
        } else {
            Err(UsageError::NoMode)
        },
{
    if execute && prove {
        Err(UsageError::BothModes)
    } else if execute {
        Ok(Mode::Execute)
    } else if prove {
        Ok(Mode::Prove)
    } else {
        Err(UsageError::NoMode)
    }
}

/// The buffers of the input channel, in the order in which the guest reads
/// them: verifying key, signature, message.
pub fn channel_buffers(vrfy_key: Vec<u8>, signature: Vec<u8>, msg: Vec<u8>) -> (buffers: Vec<
    Vec<u8>,
>)
    ensures
        buffers@ == seq![vrfy_key, signature, msg],
{
    let mut buffers: Vec<Vec<u8>> = Vec::new();
    buffers.push(vrfy_key);
    buffers.push(signature);
    buffers.push(msg);
    assert(buffers@ =~= seq![vrfy_key, signature, msg]);
    buffers
}

/// What becomes of a run once signing has been tried: with a signature the
/// channel is filled, without one the run stops.
pub fn inputs_after_signing(vrfy_key: Vec<u8>, signed: Option<Vec<u8>>, msg: Vec<u8>) -> (r: Result<
    Vec<Vec<u8>>,
    RunError,
>)
    ensures
        match signed {
            Some(signature) => (r matches Ok(buffers) && buffers@ == seq![
                vrfy_key,
                signature,
                msg,
            ]),
            None => r == Err::<Vec<Vec<u8>>, RunError>(RunError::Signing),
        },
{
    match signed {
        Some(signature) => Ok(channel_buffers(vrfy_key, signature, msg)),
        None => Err(RunError::Signing),
    }
}

/// Generates a key pair, signs the message, and fills the input channel.
/// Whatever keys come out, the channel then holds a verifying key of degree
/// 512 that decodes, a buffer of the size of a signature of that degree, and
/// the message, in that order. A generated signing key decodes, so the run
/// does not stop here. The buffer's first byte tells whether the scheme wrote
/// a signature; one that it wrote verifies over the message under the key.
pub fn prepare_inputs(msg: Vec<u8>) -> (r: Result<Vec<Vec<u8>>, RunError>)
    ensures
        r matches Ok(buffers) && buffers@.len() == 3 && key_decodes(buffers@[0]@) && key_framed(
            buffers@[0]@,
        ) && buffers@[0]@.len() == 897 && buffers@[1]@.len() == 666 && buffers@[2] == msg && (
        buffers@[1]@[0] == 0x39 || buffers@[1]@[0] == 0) && (buffers@[1]@[0] == 0x39
            ==> signature_verifies(buffers@[0]@, buffers@[1]@, msg@)),
{
    let (sign_key, vrfy_key) = generate_keys();
    let signed = sign_message(sign_key.as_slice(), msg.as_slice());
    inputs_after_signing(vrfy_key, signed, msg)
}

/// Reads the guest's committed output in execution-only mode: the record
/// that it encodes, if it is one and says that the signature verified.
pub fn check_execution(output: &[u8]) -> (r: Result<PublicRecord, RunError>)
    ensures
        match r {
            Ok(record) => decode_record(output@) == Some(record@) && record.verified,
            Err(RunError::Encoding) => decode_record(output@) is None,
            Err(RunError::NotVerified) => (decode_record(output@) matches Some(v) && !v.verified),
            Err(RunError::Signing) => false,
        },
{
    match decode(output) {
        Ok(record) => {
            if record.verified {
                Ok(record)
            } else {
                Err(RunError::NotVerified)
            }
        },
        Err(EncodingError::Malformed) => Err(RunError::Encoding),
    }
}

/// The phases of one run, in the order in which it passes through them.
#[derive(Debug, Clone, Copy, PartialEq, Eq)]
pub enum Phase {
    Idle,
    InputsPrepared,
    Executed,
    ProvedAndVerified,
    Reported,
}

/// What the host has just finished.
#[derive(Debug, Clone, Copy, PartialEq, Eq)]
pub enum Event {
    /// The input channel is filled.
    InputsReady,
    /// The backend ran the guest and the committed record was accepted.
    ExecutionChecked,
    /// The backend produced a proof and accepted it.
    ProofVerified,
    /// The outcome was shown to the operator.
    ReportShown,
}

/// What the host does next.
#[derive(Debug, Clone, Copy, PartialEq, Eq)]
pub enum Action {
    /// Generate keys, sign, and fill the input channel.
    PrepareInputs,
    /// Run the guest and check what it commits.
    ExecuteAndCheck,
    /// Set up, prove, and verify the proof.
    ProveAndVerify,
    /// Show the outcome.
    Report,
    /// The run is over.
    Stop,
}

/// How far a phase is into the run.
pub open spec fn phase_rank(phase: Phase) -> nat {
    match phase {
        Phase::Idle => 0,
        Phase::InputsPrepared => 1,
        Phase::Executed => 2,
        Phase::ProvedAndVerified => 2,
        Phase::Reported => 3,
    }
}

/// The phase that follows `phase` in a run of mode `mode` when `event`
/// arrives, if that event is due there.
pub open spec fn next_phase(phase: Phase, mode: Mode, event: Event) -> Option<Phase> {
    match (phase, event) {
        (Phase::Idle, Event::InputsReady) => Some(Phase::InputsPrepared),
        (Phase::InputsPrepared, Event::ExecutionChecked) => if mode == Mode::Execute {
            Some(Phase::Executed)
        } else {
            None
        },
        (Phase::InputsPrepared, Event::ProofVerified) => if mode == Mode::Prove {
            Some(Phase::ProvedAndVerified)
        } else {
            None
        },
        (Phase::Executed, Event::ReportShown) => Some(Phase::Reported),
        (Phase::ProvedAndVerified, Event::ReportShown) => Some(Phase::Reported),
        _ => None,
    }
}

/// What is due in `phase` in a run of mode `mode`.
pub open spec fn due_action(phase: Phase, mode: Mode) -> Action {
    match phase {
        Phase::Idle => Action::PrepareInputs,
        Phase::InputsPrepared => match mode {
            Mode::Execute => Action::ExecuteAndCheck,
            Mode::Prove => Action::ProveAndVerify,
        },
        Phase::Executed => Action::Report,
        Phase::ProvedAndVerified => Action::Report,
        Phase::Reported => Action::Stop,
    }
}

/// The event that an action ends in, if it ends in one.
pub open spec fn event_of(action: Action) -> Option<Event> {
    match action {
        Action::PrepareInputs => Some(Event::InputsReady),
        Action::ExecuteAndCheck => Some(Event::ExecutionChecked),
        Action::ProveAndVerify => Some(Event::ProofVerified),
        Action::Report => Some(Event::ReportShown),
        Action::Stop => None,
    }
}

/// What the host does next in `phase`.
pub fn next_action(phase: Phase, mode: Mode) -> (action: Action)
    ensures
        action == due_action(phase, mode),
{
    match phase {
        Phase::Idle => Action::PrepareInputs,
        Phase::InputsPrepared => match mode {
            Mode::Execute => Action::ExecuteAndCheck,
            Mode::Prove => Action::ProveAndVerify,
        },
        Phase::Executed => Action::Report,
        Phase::ProvedAndVerified => Action::Report,
        Phase::Reported => Action::Stop,
    }
}

/// Moves a run on by one event. An event that is not due leaves no phase to
/// go to.
pub fn advance(phase: Phase, mode: Mode, event: Event) -> (next: Option<Phase>)
    ensures
        next == next_phase(phase, mode, event),
{
    match phase {
        Phase::Idle => match event {
            Event::InputsReady => Some(Phase::InputsPrepared),
            _ => None,
        },
        Phase::InputsPrepared => match (mode, event) {
            (Mode::Execute, Event::ExecutionChecked) => Some(Phase::Executed),
            (Mode::Prove, Event::ProofVerified) => Some(Phase::ProvedAndVerified),
            _ => None,
        },
        Phase::Executed => match event {
            Event::ReportShown => Some(Phase::Reported),
            _ => None,
        },
        Phase::ProvedAndVerified => match event {
            Event::ReportShown => Some(Phase::Reported),
            _ => None,
        },
        Phase::Reported => None,
    }
}

/// No step of a run goes back: every step leads to a later phase.
pub proof fn lemma_run_moves_forward(phase: Phase, mode: Mode, event: Event)
    ensures
        (next_phase(phase, mode, event) matches Some(next) ==> phase_rank(next) == phase_rank(
            phase,
        ) + 1),
{
}

/// The action that is due in a phase ends in an event that is due there, and
/// a run of one mode never reaches the other mode's phase.
pub proof fn lemma_due_action_is_accepted(phase: Phase, mode: Mode)
    ensures
        phase != Phase::Reported ==> (event_of(due_action(phase, mode)) matches Some(event)
            && next_phase(phase, mode, event) is Some),
        phase == Phase::Reported ==> due_action(phase, mode) == Action::Stop,
        mode == Mode::Execute ==> forall|e: Event|
            next_phase(phase, mode, e) != Some(Phase::ProvedAndVerified),
        mode == Mode::Prove ==> forall|e: Event| next_phase(phase, mode, e) != Some(Phase::Executed),
{
}

} // verus!
