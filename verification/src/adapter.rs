//! What the request adapter computes between decoding a request and
//! calling the server, and between the server's answer and the reply.

use vstd::prelude::*;

use crate::error::DigestError;
use crate::output::{le_words, words_from_le_bytes};

verus! {

/// The length of a request's payload, as far as it can be trusted: the
/// length that the caller states must not go beyond the buffer it lent,
/// nor beyond the limit of the operation. Otherwise the request is refused
/// with `InvalidInputLength`.
pub fn checked_len(stated: u32, lent: usize, limit: usize) -> (r: Result<usize, DigestError>)
    ensures
        match r {
            Ok(len) => len == stated && stated <= lent && stated <= limit,
            Err(e) => (stated > lent || stated > limit) && e == DigestError::InvalidInputLength,
        },
{
    let len = stated as usize;
    if len > lent || len > limit {
        return Err(DigestError::InvalidInputLength);
    }
    Ok(len)
}

/// The first `len` bytes of the buffer a caller lent, once `checked_len`
/// has accepted the stated length.
pub fn payload(buffer: &[u8], stated: u32, limit: usize) -> (r: Result<&[u8], DigestError>)
    ensures
        match r {
            Ok(data) => stated <= buffer@.len() && stated <= limit && data@ == buffer@.take(
                stated as int,
            ),
            Err(e) => (stated > buffer@.len() || stated > limit) && e
                == DigestError::InvalidInputLength,
        },
{
    let len = checked_len(stated, buffer.len(), limit)?;
    let data = vstd::slice::slice_subrange(buffer, 0, len);
    assert(data@ =~= buffer@.take(stated as int));
    Ok(data)
}

/// A 32-byte tag as the 8 words that go out on the wire, each packing four
/// bytes, the least significant first.
pub fn mac_words_256(mac: &[u8; 32]) -> (words: [u32; 8])
    ensures
        words@ == le_words(mac@),
{
    words_from_le_bytes::<8>(mac.as_slice())
}

/// A 48-byte tag as the 12 words that go out on the wire, each packing
/// four bytes, the least significant first.
pub fn mac_words_384(mac: &[u8; 48]) -> (words: [u32; 12])
    ensures
        words@ == le_words(mac@),
{
    words_from_le_bytes::<12>(mac.as_slice())
}

/// A 64-byte tag as the 16 words that go out on the wire, each packing
/// four bytes, the least significant first.
pub fn mac_words_512(mac: &[u8; 64]) -> (words: [u32; 16])
    ensures
        words@ == le_words(mac@),
{
    words_from_le_bytes::<16>(mac.as_slice())
}

} // verus!
