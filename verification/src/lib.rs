//! Proof-carrying signature verification: the public record and its binary
//! layout, the guest routine that verifies a signature and commits the
//! record, the key and signature generator, and the host's decisions.

pub mod codec;
pub mod generator;
pub mod guest;
pub mod host;
pub mod primitive;
pub mod sequence;

pub use codec::{decode, encode, EncodingError, PublicRecord, RecordView};
pub use generator::{checks_key_hash, generate_keys, sign_message, verifying_key_for};
pub use guest::{
    assemble_record, guest_output, read_inputs, run_guest, verify_inputs, ExecutionInputs,
    FramingError,
};
pub use host::{
    advance, channel_buffers, check_execution, inputs_after_signing, next_action, prepare_inputs,
    select_mode, Action, Event, Mode, Phase, RunError, UsageError,
};
pub use primitive::verify_signature;
pub use sequence::fibonacci;
