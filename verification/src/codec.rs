//! The public record and its binary layout.
//!
//! A record is laid out as a sequence of 32-byte words, the way a contract
//! ABI lays out a dynamic tuple `(bytes, bytes, bytes, bool)`:
//!
//! ```text
//! word 0        32, the offset of the tuple
//! word 1        the offset of the key field inside the tuple (128)
//! word 2        the offset of the signature field
//! word 3        the offset of the message field
//! word 4        the flag: 1 if verified, else 0
//! then          three fields, each a length word followed by the bytes,
//!               zero-padded to a multiple of 32
//! ```
//!
//! Every integer is big-endian. Decoding accepts exactly the byte strings
//! that encoding produces.

use vstd::prelude::*;
use vstd::slice::{slice_subrange, slice_to_vec};

verus! {

/// What a proof commits to: the three inputs of a verification and its result.
#[derive(Debug, Clone, PartialEq, Eq)]
pub struct PublicRecord {
    pub vrfy_key: Vec<u8>,
    pub signature: Vec<u8>,
    pub msg: Vec<u8>,
    pub verified: bool,
}

/// The mathematical value of a [`PublicRecord`].
pub struct RecordView {
    pub vrfy_key: Seq<u8>,
    pub signature: Seq<u8>,
    pub msg: Seq<u8>,
    pub verified: bool,
}

impl View for PublicRecord {
    type V = RecordView;

    open spec fn view(&self) -> RecordView {
        RecordView {
            vrfy_key: self.vrfy_key@,
            signature: self.signature@,
            msg: self.msg@,
            verified: self.verified,
        }
    }
}

/// The byte string is not the encoding of any record.
#[derive(Debug, Clone, Copy, PartialEq, Eq)]
pub enum EncodingError {
    Malformed,
}

/// `n` zero bytes.
pub open spec fn zeros(n: nat) -> Seq<u8> {
    Seq::new(n, |i: int| 0u8)
}

/// The eight bytes of `n`, most significant first.
pub open spec fn be64(n: u64) -> Seq<u8> {
    seq![
        ((n >> 56) & 0xff) as u8,
        ((n >> 48) & 0xff) as u8,
        ((n >> 40) & 0xff) as u8,
        ((n >> 32) & 0xff) as u8,
        ((n >> 24) & 0xff) as u8,
        ((n >> 16) & 0xff) as u8,
        ((n >> 8) & 0xff) as u8,
        (n & 0xff) as u8,
    ]
}

/// The number that eight bytes spell, most significant first.
pub open spec fn from_be64(s: Seq<u8>) -> u64 {
    (s[0] as u64) << 56 | (s[1] as u64) << 48 | (s[2] as u64) << 40 | (s[3] as u64) << 32 | (
    s[4] as u64) << 24 | (s[5] as u64) << 16 | (s[6] as u64) << 8 | (s[7] as u64)
}

/// A 32-byte big-endian word holding `n`.
pub open spec fn word(n: u64) -> Seq<u8> {
    zeros(24) + be64(n)
}

/// The number of zero bytes that bring `n` bytes up to a multiple of 32.
pub open spec fn padding(n: nat) -> nat {
    ((32 - n % 32) % 32) as nat
}

/// The size of a field that carries `n` bytes: length word, bytes, padding.
pub open spec fn field_len(n: nat) -> nat {
    32 + n + padding(n)
}

/// A byte-string field: its length as a word, the bytes, the padding.
pub open spec fn encode_bytes(data: Seq<u8>) -> Seq<u8> {
    word(data.len() as u64) + data + zeros(padding(data.len()))
}

/// The five leading words of an encoded record.
pub open spec fn encode_head(r: RecordView) -> Seq<u8> {
    word(32) + word(128) + word((128 + field_len(r.vrfy_key.len())) as u64) + word(
        (128 + field_len(r.vrfy_key.len()) + field_len(r.signature.len())) as u64,
    ) + word(
        if r.verified {
            1
        } else {
            0
        },
    )
}

/// The encoding of a record.
pub open spec fn encode_record(r: RecordView) -> Seq<u8> {
    encode_head(r) + encode_bytes(r.vrfy_key) + encode_bytes(r.signature) + encode_bytes(r.msg)
}

/// The size of a record's encoding.
pub open spec fn encoded_len(r: RecordView) -> nat {
    160 + field_len(r.vrfy_key.len()) + field_len(r.signature.len()) + field_len(r.msg.len())
}

/// A record is valid when its encoding fits in memory.
pub open spec fn encodable(r: RecordView) -> bool {
    encoded_len(r) <= usize::MAX
}

/// The record that a byte string encodes, if there is one.
pub open spec fn decode_record(b: Seq<u8>) -> Option<RecordView> {
    if exists|r: RecordView| encodable(r) && #[trigger] encode_record(r) == b {
        Some(choose|r: RecordView| encodable(r) && #[trigger] encode_record(r) == b)
    } else {
        None
    }
}

/// The word that starts at `pos`, if there is one and it fits in 64 bits.
pub open spec fn word_at(b: Seq<u8>, pos: int) -> Option<u64> {
    if 0 <= pos && pos + 32 <= b.len() && b.subrange(pos, pos + 24) == zeros(24) {
        Some(from_be64(b.subrange(pos + 24, pos + 32)))
    } else {
        None
    }
}

/// The field that starts at `pos`, with the position just behind it.
pub open spec fn field_at(b: Seq<u8>, pos: int) -> Option<(Seq<u8>, int)> {
    match word_at(b, pos) {
        Some(n) => if pos + field_len(n as nat) <= b.len() {
            Some((b.subrange(pos + 32, pos + 32 + n), pos + field_len(n as nat)))
        } else {
            None
        },
        None => None,
    }
}

/// The record read from the positions at which encoding puts its parts.
pub open spec fn parse_record(b: Seq<u8>) -> Option<RecordView> {
    if b.len() < 160 {
        None
    } else {
        match field_at(b, 160) {
            Some((vrfy_key, p1)) => match field_at(b, p1) {
                Some((signature, p2)) => match field_at(b, p2) {
                    Some((msg, _)) => Some(
                        RecordView { vrfy_key, signature, msg, verified: b[159] != 0 },
                    ),
                    None => None,
                },
                None => None,
            },
            None => None,
        }
    }
}

proof fn lemma_be64_round_trip(n: u64)
    ensures
        from_be64(be64(n)) == n,
        be64(n).len() == 8,
{
    assert(((((n >> 56) & 0xff) as u8) as u64) << 56 | ((((n >> 48) & 0xff) as u8) as u64) << 48
        | ((((n >> 40) & 0xff) as u8) as u64) << 40 | ((((n >> 32) & 0xff) as u8) as u64) << 32 | (
    (((n >> 24) & 0xff) as u8) as u64) << 24 | ((((n >> 16) & 0xff) as u8) as u64) << 16 | ((((n
        >> 8) & 0xff) as u8) as u64) << 8 | (((n & 0xff) as u8) as u64) == n) by (bit_vector);
}

proof fn lemma_field_in_place(p: Seq<u8>, data: Seq<u8>, s: Seq<u8>)
    requires
        data.len() <= u64::MAX,
    ensures
        field_at(p + encode_bytes(data) + s, p.len() as int) == Some(
            (data, (p.len() + field_len(data.len())) as int),
        ),
{
    let b = p + encode_bytes(data) + s;
    let pos = p.len() as int;
    let n = data.len() as u64;
    lemma_be64_round_trip(n);
    assert(encode_bytes(data).len() == field_len(data.len()));
    assert(b.subrange(pos, pos + 24) =~= zeros(24));
    assert(b.subrange(pos + 24, pos + 32) =~= be64(n));
    assert(b.subrange(pos + 32, pos + 32 + n) =~= data);
}

/// An encoding is as long as [`encoded_len`] says.
pub proof fn lemma_encoded_len(r: RecordView)
    ensures
        encode_record(r).len() == encoded_len(r),
        encode_head(r).len() == 160,
{
}

proof fn lemma_field_len(data: Seq<u8>)
    ensures
        encode_bytes(data).len() == field_len(data.len()),
{
}

proof fn lemma_first_field(r: RecordView)
    requires
        encodable(r),
    ensures
        field_at(encode_record(r), 160) == Some(
            (r.vrfy_key, (160 + field_len(r.vrfy_key.len())) as int),
        ),
{
    let h = encode_head(r);
    let f1 = encode_bytes(r.vrfy_key);
    let rest = encode_bytes(r.signature) + encode_bytes(r.msg);
    lemma_encoded_len(r);
    assert(encode_record(r) =~= h + f1 + rest);
    lemma_field_in_place(h, r.vrfy_key, rest);
}

proof fn lemma_second_field(r: RecordView)
    requires
        encodable(r),
    ensures
        field_at(encode_record(r), (160 + field_len(r.vrfy_key.len())) as int) == Some(
            (
                r.signature,
                (160 + field_len(r.vrfy_key.len()) + field_len(r.signature.len())) as int,
            ),
        ),
{
    let p = encode_head(r) + encode_bytes(r.vrfy_key);
    let f3 = encode_bytes(r.msg);
    lemma_encoded_len(r);
    lemma_field_len(r.vrfy_key);
    assert(p.len() == 160 + field_len(r.vrfy_key.len()));
    lemma_field_in_place(p, r.signature, f3);
    assert(encode_record(r) == p + encode_bytes(r.signature) + f3);
}

proof fn lemma_third_field(r: RecordView)
    requires
        encodable(r),
    ensures
        field_at(
            encode_record(r),
            (160 + field_len(r.vrfy_key.len()) + field_len(r.signature.len())) as int,
        ) == Some((r.msg, encoded_len(r) as int)),
{
    let p = encode_head(r) + encode_bytes(r.vrfy_key) + encode_bytes(r.signature);
    let f3 = encode_bytes(r.msg);
    lemma_encoded_len(r);
    lemma_field_len(r.vrfy_key);
    lemma_field_len(r.signature);
    lemma_field_len(r.msg);
    assert(p.len() == 160 + field_len(r.vrfy_key.len()) + field_len(r.signature.len()));
    assert(encode_record(r) =~= p + f3 + Seq::<u8>::empty());
    lemma_field_in_place(p, r.msg, Seq::<u8>::empty());
}

proof fn lemma_flag(r: RecordView)
    ensures
        encode_record(r).len() >= 160,
        (encode_record(r)[159] != 0) == r.verified,
{
    let flag: u64 = if r.verified {
        1
    } else {
        0
    };
    lemma_encoded_len(r);
    assert(encode_record(r)[159] == encode_head(r)[159]);
    assert(encode_head(r)[159] == word(flag)[31]);
    assert(word(flag)[31] == be64(flag)[7]);
    assert(1u64 & 0xff == 1 && 0u64 & 0xff == 0) by (bit_vector);
}

/// Reading an encoding at the positions of its parts gives the record back.
pub proof fn lemma_parse_of_encoding(r: RecordView)
    requires
        encodable(r),
    ensures
        parse_record(encode_record(r)) == Some(r),
{
    lemma_first_field(r);
    lemma_second_field(r);
    lemma_third_field(r);
    lemma_flag(r);
}

/// Two valid records with the same encoding are the same record.
pub proof fn lemma_encode_injective(a: RecordView, b: RecordView)
    requires
        encodable(a),
        encodable(b),
        encode_record(a) == encode_record(b),
    ensures
        a == b,
{
    lemma_parse_of_encoding(a);
    lemma_parse_of_encoding(b);
}

/// Decoding the encoding of a valid record gives that record.
pub proof fn lemma_round_trip(r: RecordView)
    requires
        encodable(r),
    ensures
        decode_record(encode_record(r)) == Some(r),
{
    let b = encode_record(r);
    let got = choose|x: RecordView| encodable(x) && #[trigger] encode_record(x) == b;
    lemma_encode_injective(got, r);
}

/// A byte string decodes to at most the record that it is the encoding of.
pub proof fn lemma_decode_is_inverse(b: Seq<u8>, r: RecordView)
    ensures
        decode_record(b) == Some(r) ==> encodable(r) && encode_record(r) == b,
{
}

fn low_byte(x: u64) -> (b: u8)
    ensures
        b == (x & 0xff) as u8,
{
    assert(x & 0xff <= 0xff) by (bit_vector);
    (x & 0xff) as u8
}

fn push_zeros(out: &mut Vec<u8>, n: usize)
    ensures
        final(out)@ == old(out)@ + zeros(n as nat),
{
    let ghost start = out@;
    let mut i: usize = 0;
    while i < n
        invariant
            i <= n,
            out@ == start + zeros(i as nat),
        decreases n - i,
    {
        out.push(0u8);
        i = i + 1;
        assert(out@ =~= start + zeros(i as nat));
    }
    assert(start + zeros(0) =~= start);
}

/// A buffer of `n` zero bytes.
pub fn zero_bytes(n: usize) -> (out: Vec<u8>)
    ensures
        out@ == zeros(n as nat),
{
    let mut out: Vec<u8> = Vec::new();
    push_zeros(&mut out, n);
    assert(out@ =~= zeros(n as nat));
    out
}

fn push_word(out: &mut Vec<u8>, n: u64)
    ensures
        final(out)@ == old(out)@ + word(n),
{
    let ghost start = out@;
    push_zeros(out, 24);
    out.push(low_byte(n >> 56));
    out.push(low_byte(n >> 48));
    out.push(low_byte(n >> 40));
    out.push(low_byte(n >> 32));
    out.push(low_byte(n >> 24));
    out.push(low_byte(n >> 16));
    out.push(low_byte(n >> 8));
    out.push(low_byte(n));
    assert(out@ =~= start + word(n));
}

fn padding_for(n: usize) -> (pad: usize)
    ensures
        pad == padding(n as nat),
        pad < 32,
{
    let rem: usize = n % 32;
    if rem == 0 {
        0
    } else {
        32 - rem
    }
}

fn push_field(out: &mut Vec<u8>, data: &Vec<u8>)
    ensures
        final(out)@ == old(out)@ + encode_bytes(data@),
{
    let ghost start = out@;
    push_word(out, data.len() as u64);
    let ghost mid = out@;
    let mut i: usize = 0;
    while i < data.len()
        invariant
            i <= data.len(),
            out@ == mid + data@.subrange(0, i as int),
        decreases data.len() - i,
    {
        out.push(data[i]);
        i = i + 1;
        assert(out@ =~= mid + data@.subrange(0, i as int));
    }
    assert(data@.subrange(0, data.len() as int) =~= data@);
    push_zeros(out, padding_for(data.len()));
    assert(out@ =~= start + encode_bytes(data@));
}

/// Encodes a record.
pub fn encode(r: &PublicRecord) -> (out: Vec<u8>)
    requires
        encodable(r@),
    ensures
        out@ == encode_record(r@),
        decode_record(out@) == Some(r@),
{
    let f1: usize = 32 + r.vrfy_key.len() + padding_for(r.vrfy_key.len());
    let f2: usize = 32 + r.signature.len() + padding_for(r.signature.len());
    let flag: u64 = if r.verified {
        1
    } else {
        0
    };
    let mut out: Vec<u8> = Vec::new();
    push_word(&mut out, 32);
    push_word(&mut out, 128);
    push_word(&mut out, (128 + f1) as u64);
    push_word(&mut out, (128 + f1 + f2) as u64);
    push_word(&mut out, flag);
    assert(out@ =~= encode_head(r@));
    push_field(&mut out, &r.vrfy_key);
    push_field(&mut out, &r.signature);
    push_field(&mut out, &r.msg);
    proof {
        lemma_round_trip(r@);
    }
    out
}

fn read_word(bytes: &[u8], pos: usize) -> (r: Option<u64>)
    ensures
        r == word_at(bytes@, pos as int),
{
    if bytes.len() < 32 || pos > bytes.len() - 32 {
        return None;
    }
    let total: usize = bytes.len();
    let mut i: usize = 0;
    while i < 24
        invariant
            i <= 24,
            pos + 32 <= total,
            total == bytes@.len(),
            forall|k: int| pos <= k < pos + i ==> bytes@[k] == 0,
        decreases 24 - i,
    {
        if bytes[pos + i] != 0 {
            assert(bytes@.subrange(pos as int, pos + 24)[i as int] != zeros(24)[i as int]);
            return None;
        }
        i = i + 1;
    }
    assert(bytes@.subrange(pos as int, pos + 24) =~= zeros(24));
    let ghost s = bytes@.subrange(pos + 24, pos + 32);
    let n: u64 = (bytes[pos + 24] as u64) << 56 | (bytes[pos + 25] as u64) << 48 | (bytes[pos
        + 26] as u64) << 40 | (bytes[pos + 27] as u64) << 32 | (bytes[pos + 28] as u64) << 24 | (
    bytes[pos + 29] as u64) << 16 | (bytes[pos + 30] as u64) << 8 | (bytes[pos + 31] as u64);
    assert(n == from_be64(s));
    Some(n)
}

fn read_field(bytes: &[u8], pos: usize) -> (r: Option<(Vec<u8>, usize)>)
    ensures
        match r {
            Some((data, next)) => field_at(bytes@, pos as int) == Some((data@, next as int)),
            None => field_at(bytes@, pos as int) is None,
        },
{
    let n: u64 = match read_word(bytes, pos) {
        Some(n) => n,
        None => {
            return None;
        },
    };
    let avail: usize = bytes.len() - pos - 32;
    if n > avail as u64 {
        return None;
    }
    let len: usize = n as usize;
    let pad: usize = padding_for(len);
    if pad > avail - len {
        return None;
    }
    let data = slice_to_vec(slice_subrange(bytes, pos + 32, pos + 32 + len));
    Some((data, pos + 32 + len + pad))
}

fn parse(bytes: &[u8]) -> (r: Option<PublicRecord>)
    ensures
        match r {
            Some(rec) => parse_record(bytes@) == Some(rec@) && encoded_len(rec@) <= bytes@.len(),
            None => parse_record(bytes@) is None,
        },
{
    if bytes.len() < 160 {
        return None;
    }
    let (vrfy_key, p1) = match read_field(bytes, 160) {
        Some(f) => f,
        None => {
            return None;
        },
    };
    let (signature, p2) = match read_field(bytes, p1) {
        Some(f) => f,
        None => {
            return None;
        },
    };
    let (msg, _) = match read_field(bytes, p2) {
        Some(f) => f,
        None => {
            return None;
        },
    };
    let verified = bytes[159] != 0;
    Some(PublicRecord { vrfy_key, signature, msg, verified })
}

/// Whether two byte strings are the same.
pub fn bytes_equal(a: &[u8], b: &[u8]) -> (same: bool)
    ensures
        same == (a@ == b@),
{
    if a.len() != b.len() {
        return false;
    }
    let mut i: usize = 0;
    while i < a.len()
        invariant
            i <= a.len(),
            a@.len() == b@.len(),
            forall|k: int| 0 <= k < i ==> a@[k] == b@[k],
        decreases a.len() - i,
    {
        if a[i] != b[i] {
            return false;
        }
        i = i + 1;
    }
    assert(a@ =~= b@);
    true
}

/// Decodes a record: succeeds exactly on the encodings of valid records.
pub fn decode(bytes: &[u8]) -> (res: Result<PublicRecord, EncodingError>)
    ensures
        match res {
            Ok(r) => encodable(r@) && encode_record(r@) == bytes@ && decode_record(bytes@) == Some(
                r@,
            ),
            Err(_) => decode_record(bytes@) is None,
        },
{
    let total: usize = bytes.len();
    match parse(bytes) {
        Some(r) => {
            assert(encoded_len(r@) <= total);
            let again = encode(&r);
            if bytes_equal(again.as_slice(), bytes) {
                Ok(r)
            } else {
                proof {
                    assert forall|x: RecordView| encodable(x) implies #[trigger] encode_record(x)
                        != bytes@ by {
                        lemma_parse_of_encoding(x);
                    }
                }
                Err(EncodingError::Malformed)
            }
        },
        None => {
            proof {
                assert forall|x: RecordView| encodable(x) implies #[trigger] encode_record(x)
                    != bytes@ by {
                    lemma_parse_of_encoding(x);
                }
            }
            Err(EncodingError::Malformed)
        },
    }
}

} // verus!
