use vstd::bytes::{lemma_auto_spec_u64_to_from_le_bytes, spec_u64_from_le_bytes, spec_u64_to_le_bytes};
use vstd::prelude::*;

verus! {

/// Length in bytes of a nonce.
pub const NONCE_LEN: usize = 16;

/// Length in bytes of the fixed part of an envelope: the nonce, then the
/// ciphertext's length as a little-endian `u64`.
pub const HEADER_LEN: usize = 24;

/// The bytes of an envelope: the nonce, the ciphertext's length as a
/// little-endian `u64`, then the ciphertext.
pub open spec fn frame(nonce: Seq<u8>, ciphertext: Seq<u8>) -> Seq<u8> {
    nonce + spec_u64_to_le_bytes(ciphertext.len() as u64) + ciphertext
}

/// The nonce and ciphertext that a byte string starts with, or `None` when it
/// is too short to hold the header or the ciphertext that the header announces.
/// Bytes after the ciphertext are ignored.
pub open spec fn parse_frame(bytes: Seq<u8>) -> Option<(Seq<u8>, Seq<u8>)> {
    if bytes.len() < HEADER_LEN {
        None
    } else {
        let len = spec_u64_from_le_bytes(bytes.subrange(NONCE_LEN as int, HEADER_LEN as int));
        if len > bytes.len() - HEADER_LEN {
            None
        } else {
            Some((bytes.subrange(0, NONCE_LEN as int), bytes.subrange(HEADER_LEN as int, HEADER_LEN + len)))
        }
    }
}

/// Parsing the frame of a nonce and a ciphertext gives them back.
pub proof fn lemma_parse_frame(nonce: Seq<u8>, ciphertext: Seq<u8>)
    requires
        nonce.len() == NONCE_LEN,
        ciphertext.len() <= u64::MAX,
    ensures
        frame(nonce, ciphertext).len() == HEADER_LEN + ciphertext.len(),
        parse_frame(frame(nonce, ciphertext)) == Some((nonce, ciphertext)),
{
    lemma_auto_spec_u64_to_from_le_bytes();
    let len_bytes = spec_u64_to_le_bytes(ciphertext.len() as u64);
    let b = frame(nonce, ciphertext);
    assert(b.subrange(0, NONCE_LEN as int) =~= nonce);
    assert(b.subrange(NONCE_LEN as int, HEADER_LEN as int) =~= len_bytes);
    assert(b.subrange(HEADER_LEN as int, b.len() as int) =~= ciphertext);
}

/// Relies on `bincode::serialize` (fixed-width integers, little endian): a
/// 16-byte array is written as its bytes, a byte vector as its length in
/// eight bytes followed by its bytes. It has no size limit and a vector always
/// has a length, so it does not fail; the output, of the header's length plus
/// the ciphertext's, must fit in `isize`.
#[verifier::external_body]
pub(crate) fn to_wire(nonce: &[u8; 16], ciphertext: &Vec<u8>) -> (r: Option<Vec<u8>>)
    requires
        ciphertext@.len() + HEADER_LEN <= isize::MAX,
    ensures
        r is Some,
        r matches Some(b) ==> b@ == frame(nonce@, ciphertext@),
{
    bincode::serialize(&(nonce, ciphertext)).ok()
}

/// Relies on `bincode::deserialize` with the same layout as `to_wire`: it fails
/// when the input ends before the array, the length, or the announced bytes,
/// and ignores trailing bytes.
#[verifier::external_body]
pub(crate) fn from_wire(bytes: &[u8]) -> (r: Option<([u8; 16], Vec<u8>)>)
    ensures
        match r {
            Some(e) => parse_frame(bytes@) == Some((e.0@, e.1@)),
            None => parse_frame(bytes@) is None,
        },
{
    bincode::deserialize::<([u8; 16], Vec<u8>)>(bytes).ok()
}

} // verus!
