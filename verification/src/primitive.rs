//! The verification primitive: FN-DSA key decoding and signature
//! verification, with no domain-separation context and the raw-message hash
//! identifier.

use fn_dsa_vrfy::{VerifyingKey, VerifyingKeyStandard, DOMAIN_NONE, HASH_ID_RAW};
use vstd::prelude::*;

verus! {

/// A decoded verifying key of the signature scheme, for the standard degrees.
#[verifier::external_type_specification]
#[verifier::external_body]
pub struct ExVerifyingKeyStandard(VerifyingKeyStandard);

/// Whether the scheme accepts a byte string as an encoded verifying key.
pub uninterp spec fn key_decodes(key: Seq<u8>) -> bool;

/// The byte string that a decoded verifying key was read from.
pub uninterp spec fn key_source(vk: VerifyingKeyStandard) -> Seq<u8>;

/// Whether the scheme accepts a signature over a message under the key
/// encoded as `key`, with the empty context and the raw-message identifier.
pub uninterp spec fn signature_accepted(key: Seq<u8>, signature: Seq<u8>, message: Seq<u8>) -> bool;

/// The degrees of the standard parameter sets, as logarithms: 512 and 1024.
pub open spec fn standard_degree(logn: int) -> bool {
    logn == 9 || logn == 10
}

/// The size of an encoded verifying key of a standard degree.
pub open spec fn vrfy_key_len(logn: int) -> nat {
    if logn == 9 {
        897
    } else {
        1793
    }
}

/// The size of a signature of a standard degree.
pub open spec fn signature_len(logn: int) -> nat {
    if logn == 9 {
        666
    } else {
        1280
    }
}

/// A verifying key's frame: a first byte that names a standard degree, and
/// the length of that degree.
pub open spec fn key_framed(key: Seq<u8>) -> bool {
    key.len() > 0 && standard_degree(key[0] as int) && key.len() == vrfy_key_len(key[0] as int)
}

/// A signature's frame under a framed key: the length of the key's degree,
/// and a first byte that names it.
pub open spec fn signature_framed(key: Seq<u8>, signature: Seq<u8>) -> bool {
    key.len() > 0 && signature.len() == signature_len(key[0] as int) && signature[0] == 0x30
        + key[0]
}

/// What verification means here: the key decodes, and the scheme accepts the
/// signature over the message under it.
pub open spec fn signature_verifies(key: Seq<u8>, signature: Seq<u8>, message: Seq<u8>) -> bool {
    key_decodes(key) && signature_accepted(key, signature, message)
}

/// No proper prefix of a framed key is framed: under a truncated key nothing
/// verifies.
pub proof fn lemma_truncated_key_unframed(key: Seq<u8>, n: int)
    requires
        key_framed(key),
        0 <= n < key.len(),
    ensures
        !key_framed(key.take(n)),
{
}

/// `VerifyingKeyStandard::decode`. Trusted: it returns a key exactly when the
/// scheme accepts the encoding, only for a framed encoding, and the key
/// stands for the bytes it was read from.
#[verifier::external_body]
fn decode_vrfy_key(key: &[u8]) -> (r: Option<VerifyingKeyStandard>)
    ensures
        r.is_some() == key_decodes(key@),
        r.is_some() ==> key_framed(key@),
        r matches Some(vk) ==> key_source(vk) == key@,
{
    VerifyingKeyStandard::decode(key)
}

/// `VerifyingKey::verify` with `DOMAIN_NONE` and `HASH_ID_RAW`. Trusted: the
/// answer depends on the key's encoding, the signature and the message alone,
/// and is `true` only for a signature with the frame of the key's degree.
#[verifier::external_body]
fn verify_under(vk: &VerifyingKeyStandard, signature: &[u8], message: &[u8]) -> (ok: bool)
    ensures
        ok == signature_accepted(key_source(*vk), signature@, message@),
        ok ==> signature_framed(key_source(*vk), signature@),
{
    vk.verify(signature, &DOMAIN_NONE, &HASH_ID_RAW, message)
}

/// Verifies a signature over a message under an encoded verifying key.
///
/// A key that does not decode is no error: the signature is then not
/// verified. In particular nothing verifies under a key or with a signature
/// that lacks its frame, such as a truncated one.
pub fn verify_signature(vrfy_key: &[u8], signature: &[u8], message: &[u8]) -> (verified: bool)
    ensures
        verified == signature_verifies(vrfy_key@, signature@, message@),
        verified ==> key_framed(vrfy_key@) && signature_framed(vrfy_key@, signature@),
        !key_decodes(vrfy_key@) ==> !verified,
        key_decodes(vrfy_key@) ==> key_framed(vrfy_key@),
{
    match decode_vrfy_key(vrfy_key) {
        Some(vk) => verify_under(&vk, signature, message),
        None => false,
    }
}

} // verus!
