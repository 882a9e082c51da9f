//! The key and signature generator: fresh FN-DSA key pairs of degree 512, and
//! signatures with no domain-separation context over raw messages.

use crate::codec::{bytes_equal, zero_bytes};
use crate::primitive::{
    key_decodes, key_framed, signature_accepted, signature_len, signature_verifies,
    standard_degree, vrfy_key_len,
};
use fn_dsa::{
    KeyPairGenerator, KeyPairGeneratorStandard, SigningKey, SigningKeyStandard, DOMAIN_NONE,
    FN_DSA_LOGN_512, HASH_ID_RAW,
};
use rand_core::OsRng;
use vstd::prelude::*;
use vstd::slice::slice_subrange;

verus! {

/// A decoded signing key of the signature scheme, for the standard degrees.
#[verifier::external_type_specification]
#[verifier::external_body]
pub struct ExSigningKeyStandard(SigningKeyStandard);

/// Whether the scheme accepts a byte string as an encoded signing key.
pub uninterp spec fn signing_key_decodes(key: Seq<u8>) -> bool;

/// The degree of a decoded signing key, as a logarithm.
pub uninterp spec fn signing_degree(sk: SigningKeyStandard) -> u32;

/// The byte string that a decoded signing key was read from.
pub uninterp spec fn signing_key_source(sk: SigningKeyStandard) -> Seq<u8>;

/// The encoded verifying key that belongs to an encoded signing key: the one
/// that the scheme computes from a signing key when it decodes it.
pub uninterp spec fn verifying_key_of(sign_key: Seq<u8>) -> Seq<u8>;

/// The 64-byte hash that the scheme takes of an encoded verifying key, and
/// mixes into every message it signs or verifies under that key.
pub uninterp spec fn key_hash(vrfy_key: Seq<u8>) -> Seq<u8>;

/// Whether an encoded signing key ends with the hash of the verifying key
/// that belongs to it. The scheme stores that hash there and signs with it,
/// but does not check it when it decodes the key.
pub open spec fn carries_key_hash(sign_key: Seq<u8>) -> bool {
    sign_key.len() >= 64 && sign_key.subrange(sign_key.len() - 64, sign_key.len() as int)
        == key_hash(verifying_key_of(sign_key))
}

/// The first byte of a signature made with an encoded signing key: it names
/// the key's degree.
pub open spec fn signature_head(sign_key: Seq<u8>) -> int {
    0x30 + (sign_key[0] - 0x50)
}

/// The size of an encoded signing key of a standard degree.
pub open spec fn sign_key_len(logn: int) -> nat {
    if logn == 9 {
        1345
    } else {
        2369
    }
}

/// A signing key's frame: a first byte that names a standard degree, and the
/// length of that degree.
pub open spec fn signing_key_framed(key: Seq<u8>) -> bool {
    key.len() > 0 && standard_degree(key[0] - 0x50) && key.len() == sign_key_len(key[0] - 0x50)
}

/// `fn_dsa::FN_DSA_LOGN_512`. Trusted: the constant is 9, the logarithm of
/// degree 512.
#[verifier::external_body]
fn degree_512() -> (logn: u32)
    ensures
        logn == 9,
{
    FN_DSA_LOGN_512
}

/// `fn_dsa::sign_key_size`. Trusted: the size of a signing key of a standard
/// degree.
#[verifier::external_body]
fn sign_key_size(logn: u32) -> (n: usize)
    requires
        standard_degree(logn as int),
    ensures
        n == sign_key_len(logn as int),
{
    fn_dsa::sign_key_size(logn)
}

/// `fn_dsa::vrfy_key_size`. Trusted: the size of a verifying key of a
/// standard degree.
#[verifier::external_body]
fn vrfy_key_size(logn: u32) -> (n: usize)
    requires
        standard_degree(logn as int),
    ensures
        n == vrfy_key_len(logn as int),
{
    fn_dsa::vrfy_key_size(logn)
}

/// `fn_dsa::signature_size`. Trusted: the size of a signature of a standard
/// degree.
#[verifier::external_body]
fn signature_size(logn: u32) -> (n: usize)
    requires
        standard_degree(logn as int),
    ensures
        n == signature_len(logn as int),
{
    fn_dsa::signature_size(logn)
}

/// `KeyPairGeneratorStandard::keygen` on the operating system's random
/// source. Trusted: given buffers of the degree's sizes it fills them, keeps
/// their sizes, and starts each key with the byte that names the degree.
/// Both keys decode: the generator keeps every coefficient in the range of
/// the encoding and retries until the signing key's first polynomial is
/// invertible. The verifying key is the one that belongs to the signing key:
/// both are the quotient of the same two polynomials. The signing key ends
/// with the hash of the verifying key. The keys differ from call to call.
/// The random source aborts if the operating system cannot serve it.
#[verifier::external_body]
fn keygen_into(logn: u32, sign_key: &mut Vec<u8>, vrfy_key: &mut Vec<u8>)
    requires
        standard_degree(logn as int),
        old(sign_key)@.len() == sign_key_len(logn as int),
        old(vrfy_key)@.len() == vrfy_key_len(logn as int),
    ensures
        final(sign_key)@.len() == old(sign_key)@.len(),
        final(vrfy_key)@.len() == old(vrfy_key)@.len(),
        final(sign_key)@[0] == 0x50 + logn,
        final(vrfy_key)@[0] == logn,
        signing_key_decodes(final(sign_key)@),
        key_decodes(final(vrfy_key)@),
        verifying_key_of(final(sign_key)@) == final(vrfy_key)@,
        final(sign_key)@.subrange(final(sign_key)@.len() - 64, final(sign_key)@.len() as int)
            == key_hash(final(vrfy_key)@),
{
    let mut kg = KeyPairGeneratorStandard::default();
    kg.keygen(logn, &mut OsRng, sign_key, vrfy_key);
}

/// `SigningKeyStandard::decode`. Trusted: it returns a key exactly when the
/// scheme accepts the encoding, only for a framed encoding, and the key has
/// the degree that the encoding's first byte names and stands for the bytes
/// it was read from.
#[verifier::external_body]
fn decode_signing_key(key: &[u8]) -> (r: Option<SigningKeyStandard>)
    ensures
        r.is_some() == signing_key_decodes(key@),
        r.is_some() ==> signing_key_framed(key@),
        r matches Some(sk) ==> signing_degree(sk) == key@[0] - 0x50,
        r matches Some(sk) ==> signing_key_source(sk) == key@,
{
    SigningKeyStandard::decode(key)
}

/// `SigningKey::get_logn`. Trusted: it returns the key's degree.
#[verifier::external_body]
fn degree_of(sk: &SigningKeyStandard) -> (logn: u32)
    ensures
        logn == signing_degree(*sk),
{
    sk.get_logn()
}

/// `SigningKey::to_verifying_key`. Trusted: given a buffer of the size of
/// the key's degree it writes the verifying key that belongs to the signing
/// key, which starts with the byte that names the degree.
#[verifier::external_body]
fn write_verifying_key(sk: &SigningKeyStandard, vrfy_key: &mut Vec<u8>)
    requires
        old(vrfy_key)@.len() == vrfy_key_len(signing_degree(*sk) as int),
    ensures
        final(vrfy_key)@ == verifying_key_of(signing_key_source(*sk)),
        final(vrfy_key)@.len() == old(vrfy_key)@.len(),
        final(vrfy_key)@[0] == signing_degree(*sk),
{
    sk.to_verifying_key(vrfy_key)
}

/// `fn_dsa::hashed_vrfykey_from_vrfykey`. Trusted: the 64-byte hash of an
/// encoded verifying key, a function of the bytes alone.
#[verifier::external_body]
fn hash_of_vrfy_key(vrfy_key: &[u8]) -> (h: Vec<u8>)
    ensures
        h@ == key_hash(vrfy_key@),
        h@.len() == 64,
{
    fn_dsa::hashed_vrfykey_from_vrfykey(vrfy_key).to_vec()
}

/// `SigningKey::sign` with `DOMAIN_NONE` and `HASH_ID_RAW`, on the operating
/// system's random source. Trusted: given a buffer of the size of the key's
/// degree it keeps that size, and reports whether a signature was written.
/// The first byte is written only with a signature, and then names the
/// degree. A signature that was written is accepted under the verifying key
/// that belongs to the signing key, provided the signing key ends with the
/// hash of that verifying key: signing mixes the stored hash into the
/// message, verification the hash of the key it is given, and both hold the
/// same pair of short vectors to the same bound. The scheme gives up after a
/// bounded number of rejected attempts. The signature differs from call to
/// call.
#[verifier::external_body]
fn sign_into(sk: &mut SigningKeyStandard, message: &[u8], sig: &mut Vec<u8>) -> (done: bool)
    requires
        old(sig)@.len() == signature_len(signing_degree(*old(sk)) as int),
    ensures
        final(sig)@.len() == old(sig)@.len(),
        done ==> final(sig)@[0] == 0x30 + signing_degree(*old(sk)),
        !done ==> final(sig)@[0] == old(sig)@[0],
        done && carries_key_hash(signing_key_source(*old(sk))) ==> signature_accepted(
            verifying_key_of(signing_key_source(*old(sk))),
            final(sig)@,
            message@,
        ),
{
    sk.sign(&mut OsRng, &DOMAIN_NONE, &HASH_ID_RAW, message, sig).is_some()
}

/// A fresh key pair of degree 512: the encoded signing key, then the encoded
/// verifying key. Both decode, both have the sizes and the first bytes of
/// that degree, the verifying key is the one that belongs to the signing
/// key, and the signing key ends with the hash of the verifying key.
pub fn generate_keys() -> (keys: (Vec<u8>, Vec<u8>))
    ensures
        signing_key_decodes(keys.0@),
        key_decodes(keys.1@),
        verifying_key_of(keys.0@) == keys.1@,
        carries_key_hash(keys.0@),
        signing_key_framed(keys.0@),
        key_framed(keys.1@),
        keys.0@.len() == 1345 && keys.0@[0] == 0x59,
        keys.1@.len() == 897 && keys.1@[0] == 0x09,
{
    let logn: u32 = degree_512();
    let sign_key_len: usize = sign_key_size(logn);
    let vrfy_key_len: usize = vrfy_key_size(logn);
    let mut sign_key = zero_bytes(sign_key_len);
    let mut vrfy_key = zero_bytes(vrfy_key_len);
    keygen_into(logn, &mut sign_key, &mut vrfy_key);
    (sign_key, vrfy_key)
}

/// The verifying key that belongs to an encoded signing key, if the signing
/// key decodes.
pub fn verifying_key_for(sign_key: &[u8]) -> (r: Option<Vec<u8>>)
    ensures
        r is None <==> !signing_key_decodes(sign_key@),
        signing_key_decodes(sign_key@) ==> signing_key_framed(sign_key@),
        r matches Some(vrfy_key) ==> vrfy_key@ == verifying_key_of(sign_key@) && vrfy_key@.len()
            == vrfy_key_len(sign_key@[0] - 0x50) && vrfy_key@[0] == sign_key@[0] - 0x50,
{
    let sk = match decode_signing_key(sign_key) {
        Some(sk) => sk,
        None => {
            return None;
        },
    };
    let logn: u32 = degree_of(&sk);
    let mut vrfy_key = zero_bytes(vrfy_key_size(logn));
    write_verifying_key(&sk, &mut vrfy_key);
    Some(vrfy_key)
}

/// Whether an encoded signing key decodes and ends with the hash of the
/// verifying key that belongs to it.
pub fn checks_key_hash(sign_key: &[u8]) -> (sound: bool)
    ensures
        sound == (signing_key_decodes(sign_key@) && carries_key_hash(sign_key@)),
{
    match verifying_key_for(sign_key) {
        Some(vrfy_key) => {
            let hash = hash_of_vrfy_key(vrfy_key.as_slice());
            let len: usize = sign_key.len();
            let stored = slice_subrange(sign_key, len - 64, len);
            bytes_equal(stored, hash.as_slice())
        },
        None => false,
    }
}

/// Signs a message with an encoded signing key.
///
/// There is no signature exactly when the signing key does not decode. With
/// a key that decodes, the buffer that the scheme signed into comes back,
/// of the size of the key's degree. Its first byte tells whether the scheme
/// wrote a signature: it then names the key's degree, and is zero if the
/// scheme gave up, which it does after a bounded number of rejected
/// attempts. A signature made with a key that ends with the hash of its
/// verifying key is accepted under that verifying key.
pub fn sign_message(sign_key: &[u8], message: &[u8]) -> (r: Option<Vec<u8>>)
    ensures
        r is None <==> !signing_key_decodes(sign_key@),
        signing_key_decodes(sign_key@) ==> signing_key_framed(sign_key@),
        r matches Some(sig) ==> sig@.len() == signature_len(sign_key@[0] - 0x50),
        r matches Some(sig) ==> sig@[0] == signature_head(sign_key@) || sig@[0] == 0,
        r matches Some(sig) ==> (carries_key_hash(sign_key@) && sig@[0] == signature_head(sign_key@)
            ==> signature_accepted(verifying_key_of(sign_key@), sig@, message@)),
{
    let mut sk = match decode_signing_key(sign_key) {
        Some(sk) => sk,
        None => {
            return None;
        },
    };
    let logn: u32 = degree_of(&sk);
    let mut sig = zero_bytes(signature_size(logn));
    let _done: bool = sign_into(&mut sk, message, &mut sig);
    Some(sig)
}

/// A pair's signatures verify. Of the pair this takes what `generate_keys`
/// states: the verifying key decodes, belongs to the signing key, and its
/// hash ends the signing key. Of the signature it takes what `sign_message`
/// states, and that one was written: its first byte names the degree. Then
/// the signature verifies over the message under the pair's verifying key.
pub proof fn lemma_pair_signature_verifies(
    sign_key: Seq<u8>,
    vrfy_key: Seq<u8>,
    signature: Seq<u8>,
    message: Seq<u8>,
)
    requires
        key_decodes(vrfy_key),
        verifying_key_of(sign_key) == vrfy_key,
        carries_key_hash(sign_key),
        signature[0] == signature_head(sign_key),
        carries_key_hash(sign_key) && signature[0] == signature_head(sign_key)
            ==> signature_accepted(verifying_key_of(sign_key), signature, message),
    ensures
        signature_verifies(vrfy_key, signature, message),
{
}

} // verus!
