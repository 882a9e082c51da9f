//! The guest routine: from the three input buffers to the committed bytes.
//!
//! The buffers carry no names. They are told apart by their order alone:
//! verifying key, signature, message.

use crate::codec::{
    decode_record, encodable, encode, encode_record, lemma_round_trip, PublicRecord, RecordView,
};
use crate::primitive::{
    key_decodes, key_framed, signature_framed, signature_verifies, verify_signature,
};
use vstd::prelude::*;

verus! {

/// The inputs of one verification, in the order of the input channel.
#[derive(Debug, Clone, PartialEq, Eq)]
pub struct ExecutionInputs {
    pub vrfy_key: Vec<u8>,
    pub signature: Vec<u8>,
    pub msg: Vec<u8>,
}

/// The input channel did not hold exactly three buffers.
#[derive(Debug, Clone, Copy, PartialEq, Eq)]
pub enum FramingError {
    /// Fewer than three buffers: a read would run past the end of the input.
    TooFew,
    /// More than three buffers: input would be left unread.
    TooMany,
}

/// The record of a verification that has taken place: the three inputs, and
/// whether the signature verifies over the message under the key.
pub open spec fn attested_record(key: Seq<u8>, signature: Seq<u8>, message: Seq<u8>) -> RecordView {
    RecordView {
        vrfy_key: key,
        signature,
        msg: message,
        verified: signature_verifies(key, signature, message),
    }
}

/// The record of three inputs whose signature did not verify.
pub open spec fn rejected_record(key: Seq<u8>, signature: Seq<u8>, message: Seq<u8>) -> RecordView {
    RecordView { vrfy_key: key, signature, msg: message, verified: false }
}

/// Whether a record says of its own inputs what verification says of them.
pub open spec fn attested(r: RecordView) -> bool {
    r == attested_record(r.vrfy_key, r.signature, r.msg)
}

/// The bytes that the guest commits for three inputs.
pub open spec fn committed_bytes(key: Seq<u8>, signature: Seq<u8>, message: Seq<u8>) -> Seq<u8> {
    encode_record(attested_record(key, signature, message))
}

/// Whether the record of three inputs has an encoding that fits in memory.
pub open spec fn inputs_fit(key: Seq<u8>, signature: Seq<u8>, message: Seq<u8>) -> bool {
    encodable(attested_record(key, signature, message))
}

/// Takes the three buffers off the input channel, in order.
pub fn read_inputs(buffers: Vec<Vec<u8>>) -> (r: Result<ExecutionInputs, FramingError>)
    ensures
        match r {
            Ok(inputs) => buffers@.len() == 3 && inputs.vrfy_key == buffers@[0] && inputs.signature
                == buffers@[1] && inputs.msg == buffers@[2],
            Err(FramingError::TooFew) => buffers@.len() < 3,
            Err(FramingError::TooMany) => buffers@.len() > 3,
        },
{
    let mut rest = buffers;
    if rest.len() < 3 {
        return Err(FramingError::TooFew);
    }
    if rest.len() > 3 {
        return Err(FramingError::TooMany);
    }
    let msg = match rest.pop() {
        Some(b) => b,
        None => {
            return Err(FramingError::TooFew);
        },
    };
    let signature = match rest.pop() {
        Some(b) => b,
        None => {
            return Err(FramingError::TooFew);
        },
    };
    let vrfy_key = match rest.pop() {
        Some(b) => b,
        None => {
            return Err(FramingError::TooFew);
        },
    };
    Ok(ExecutionInputs { vrfy_key, signature, msg })
}

/// Puts the inputs and the result of their verification into a record.
pub fn assemble_record(inputs: ExecutionInputs, verified: bool) -> (r: PublicRecord)
    ensures
        r@ == (RecordView {
            vrfy_key: inputs.vrfy_key@,
            signature: inputs.signature@,
            msg: inputs.msg@,
            verified,
        }),
{
    PublicRecord {
        vrfy_key: inputs.vrfy_key,
        signature: inputs.signature,
        msg: inputs.msg,
        verified,
    }
}

/// Verifies the signature and records the result beside the inputs.
///
/// The record is attested: its flag is set exactly when the signature
/// verifies. A key that does not decode gives a record with the flag unset.
pub fn verify_inputs(inputs: ExecutionInputs) -> (r: PublicRecord)
    ensures
        r@ == attested_record(inputs.vrfy_key@, inputs.signature@, inputs.msg@),
        attested(r@),
        !key_decodes(inputs.vrfy_key@) ==> !r.verified,
        !key_framed(inputs.vrfy_key@) ==> !r.verified,
        !signature_framed(inputs.vrfy_key@, inputs.signature@) ==> !r.verified,
{
    let verified = verify_signature(
        inputs.vrfy_key.as_slice(),
        inputs.signature.as_slice(),
        inputs.msg.as_slice(),
    );
    assemble_record(inputs, verified)
}

/// The guest routine on inputs already taken off the channel: verifies, and
/// returns the encoded record to commit.
pub fn guest_output(inputs: ExecutionInputs) -> (out: Vec<u8>)
    requires
        inputs_fit(inputs.vrfy_key@, inputs.signature@, inputs.msg@),
    ensures
        out@ == committed_bytes(inputs.vrfy_key@, inputs.signature@, inputs.msg@),
        !key_decodes(inputs.vrfy_key@) || !key_framed(inputs.vrfy_key@) ==> out@ == encode_record(
            rejected_record(inputs.vrfy_key@, inputs.signature@, inputs.msg@),
        ),
{
    let record = verify_inputs(inputs);
    encode(&record)
}

/// The guest routine: takes the buffers off the channel, verifies, and
/// returns the encoded record to commit. Anything but three buffers is a
/// framing error, and nothing is then verified or committed.
pub fn run_guest(buffers: Vec<Vec<u8>>) -> (r: Result<Vec<u8>, FramingError>)
    requires
        buffers@.len() == 3 ==> inputs_fit(buffers@[0]@, buffers@[1]@, buffers@[2]@),
    ensures
        match r {
            Ok(out) => buffers@.len() == 3 && out@ == committed_bytes(
                buffers@[0]@,
                buffers@[1]@,
                buffers@[2]@,
            ) && (!key_decodes(buffers@[0]@) || !key_framed(buffers@[0]@) ==> out@ == encode_record(
                rejected_record(buffers@[0]@, buffers@[1]@, buffers@[2]@),
            )),
            Err(FramingError::TooFew) => buffers@.len() < 3,
            Err(FramingError::TooMany) => buffers@.len() > 3,
        },
{
    match read_inputs(buffers) {
        Ok(inputs) => Ok(guest_output(inputs)),
        Err(e) => Err(e),
    }
}

/// What the guest commits decodes to the attested record of its inputs: the
/// inputs come back unchanged, and the flag is set exactly when the
/// signature verifies.
pub proof fn lemma_committed_record(key: Seq<u8>, signature: Seq<u8>, message: Seq<u8>)
    requires
        inputs_fit(key, signature, message),
    ensures
        decode_record(committed_bytes(key, signature, message)) == Some(
            attested_record(key, signature, message),
        ),
        !key_decodes(key) ==> decode_record(committed_bytes(key, signature, message)) == Some(
            rejected_record(key, signature, message),
        ),
{
    lemma_round_trip(attested_record(key, signature, message));
}

/// Where the signature verifies over the message under the key, what the
/// guest commits decodes to the record of the three inputs with the flag set.
pub proof fn lemma_verified_inputs_commit_true(key: Seq<u8>, signature: Seq<u8>, message: Seq<u8>)
    requires
        inputs_fit(key, signature, message),
        signature_verifies(key, signature, message),
    ensures
        decode_record(committed_bytes(key, signature, message)) == Some(
            RecordView { vrfy_key: key, signature, msg: message, verified: true },
        ),
{
    lemma_round_trip(attested_record(key, signature, message));
}

} // verus!
