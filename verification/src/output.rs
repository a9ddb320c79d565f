//! Fixed-size digest outputs and the conversions between bytes and words.

use vstd::arithmetic::div_mod::lemma_fundamental_div_mod_converse;
use vstd::prelude::*;

verus! {

/// A digest as an array of `N` 32-bit words.
#[derive(Copy, Clone, Debug, PartialEq, Eq)]
pub struct DigestOutput<const N: usize> {
    /// The digest value as an array of 32-bit words.
    pub value: [u32; N],
}

impl<const N: usize> DigestOutput<N> {
    /// Wraps an array of words.
    pub fn new(value: [u32; N]) -> (digest: Self)
        ensures
            digest.value == value,
    {
        DigestOutput { value }
    }

    /// Unwraps the array of words.
    pub fn into_array(self) -> (value: [u32; N])
        ensures
            value == self.value,
    {
        self.value
    }
}

/// Helper trait to convert digest outputs to byte arrays.
pub trait DigestAsBytes {
    /// The digest as bytes.
    fn as_bytes(&self) -> &[u8];
}

/// `zerocopy::IntoBytes::as_bytes` for an array of words: the bytes of the
/// words as they lie in memory, four to a word, in the byte order of the
/// machine. Which of the two orders that is differs between machines.
#[verifier::external_body]
fn words_as_bytes<const N: usize>(words: &[u32; N]) -> (bytes: &[u8])
    ensures
        bytes@ == le_bytes(words@) || bytes@ == be_bytes(words@),
{
    zerocopy::IntoBytes::as_bytes(words)
}

impl<const N: usize> DigestAsBytes for DigestOutput<N> {
    /// The words of the digest as they lie in memory: `4 * N` bytes, four
    /// to a word, in the byte order of the machine.
    fn as_bytes(&self) -> (bytes: &[u8])
        ensures
            bytes@.len() == 4 * N,
            bytes@ == le_bytes(self.value@) || bytes@ == be_bytes(self.value@),
    {
        words_as_bytes(&self.value)
    }
}

/// The 32-bit word whose big-endian bytes are `b0 b1 b2 b3`.
pub open spec fn be_word(b0: u8, b1: u8, b2: u8, b3: u8) -> u32 {
    (b0 as int * 0x100_0000 + b1 as int * 0x1_0000 + b2 as int * 0x100 + b3 as int) as u32
}

/// The 32-bit word whose little-endian bytes are `b0 b1 b2 b3`.
pub open spec fn le_word(b0: u8, b1: u8, b2: u8, b3: u8) -> u32 {
    be_word(b3, b2, b1, b0)
}

/// The words that a byte string packs, four bytes to a word, the most
/// significant byte first. Bytes beyond the last full word are left out.
pub open spec fn be_words(bytes: Seq<u8>) -> Seq<u32> {
    Seq::new(
        (bytes.len() / 4) as nat,
        |i: int| be_word(bytes[4 * i], bytes[4 * i + 1], bytes[4 * i + 2], bytes[4 * i + 3]),
    )
}

/// The words that a byte string packs, four bytes to a word, the least
/// significant byte first. Bytes beyond the last full word are left out.
pub open spec fn le_words(bytes: Seq<u8>) -> Seq<u32> {
    Seq::new(
        (bytes.len() / 4) as nat,
        |i: int| le_word(bytes[4 * i], bytes[4 * i + 1], bytes[4 * i + 2], bytes[4 * i + 3]),
    )
}

/// Byte `k` (0 is the most significant) of a word.
pub open spec fn be_byte(word: u32, k: int) -> u8 {
    ((word as int / pow256(3 - k)) % 256) as u8
}

/// 256 to the power `e`, for `e` from 0 to 3.
pub open spec fn pow256(e: int) -> int {
    if e <= 0 {
        1
    } else if e == 1 {
        0x100
    } else if e == 2 {
        0x1_0000
    } else {
        0x100_0000
    }
}

/// The bytes that a sequence of words unpacks to, four bytes to a word, the
/// most significant byte first.
pub open spec fn be_bytes(words: Seq<u32>) -> Seq<u8> {
    Seq::new(4 * words.len(), |j: int| be_byte(words[j / 4], j % 4))
}

/// The bytes that a sequence of words unpacks to, four bytes to a word, the
/// least significant byte first.
pub open spec fn le_bytes(words: Seq<u32>) -> Seq<u8> {
    Seq::new(4 * words.len(), |j: int| be_byte(words[j / 4], 3 - j % 4))
}

/// Packs `4 * N` bytes into `N` words, the most significant byte of each
/// word first.
pub fn words_from_be_bytes<const N: usize>(bytes: &[u8]) -> (words: [u32; N])
    requires
        bytes@.len() == 4 * N,
    ensures
        words@ == be_words(bytes@),
{
    let len: usize = bytes.len();
    let mut words = [0u32; N];
    let mut i: usize = 0;
    while i < N
        invariant
            i <= N,
            bytes@.len() == 4 * N,
            len == 4 * N,
            words@.len() == N,
            forall|j: int| 0 <= j < i ==> words@[j] == be_word(
                bytes@[4 * j],
                bytes@[4 * j + 1],
                bytes@[4 * j + 2],
                bytes@[4 * j + 3],
            ),
        decreases N - i,
    {
        let b0: u32 = bytes[4 * i] as u32;
        let b1: u32 = bytes[4 * i + 1] as u32;
        let b2: u32 = bytes[4 * i + 2] as u32;
        let b3: u32 = bytes[4 * i + 3] as u32;
        words[i] = b0 * 0x100_0000 + b1 * 0x1_0000 + b2 * 0x100 + b3;
        i += 1;
    }
    assert(words@ =~= be_words(bytes@));
    words
}

/// Packs `4 * N` bytes into `N` words, the least significant byte of each
/// word first.
pub fn words_from_le_bytes<const N: usize>(bytes: &[u8]) -> (words: [u32; N])
    requires
        bytes@.len() == 4 * N,
    ensures
        words@ == le_words(bytes@),
{
    let len: usize = bytes.len();
    let mut words = [0u32; N];
    let mut i: usize = 0;
    while i < N
        invariant
            i <= N,
            bytes@.len() == 4 * N,
            len == 4 * N,
            words@.len() == N,
            forall|j: int| 0 <= j < i ==> words@[j] == le_word(
                bytes@[4 * j],
                bytes@[4 * j + 1],
                bytes@[4 * j + 2],
                bytes@[4 * j + 3],
            ),
        decreases N - i,
    {
        let b0: u32 = bytes[4 * i] as u32;
        let b1: u32 = bytes[4 * i + 1] as u32;
        let b2: u32 = bytes[4 * i + 2] as u32;
        let b3: u32 = bytes[4 * i + 3] as u32;
        words[i] = b3 * 0x100_0000 + b2 * 0x1_0000 + b1 * 0x100 + b0;
        i += 1;
    }
    assert(words@ =~= le_words(bytes@));
    words
}

/// Unpacks words into bytes, the most significant byte of each word first.
#[verifier::rlimit(40)]
pub fn words_to_be_bytes(words: &[u32]) -> (bytes: Vec<u8>)
    requires
        4 * words@.len() <= usize::MAX,
    ensures
        bytes@ == be_bytes(words@),
{
    let mut bytes: Vec<u8> = Vec::new();
    let mut i: usize = 0;
    while i < words.len()
        invariant
            i <= words@.len(),
            4 * words@.len() <= usize::MAX,
            bytes@.len() == 4 * i,
            forall|j: int| 0 <= j < 4 * i ==> bytes@[j] == be_byte(words@[j / 4], j % 4),
        decreases words@.len() - i,
    {
        let w: u32 = words[i];
        bytes.push((w / 0x100_0000) as u8);
        bytes.push(((w / 0x1_0000) % 0x100) as u8);
        bytes.push(((w / 0x100) % 0x100) as u8);
        bytes.push((w % 0x100) as u8);
        i += 1;
    }
    assert(bytes@ =~= be_bytes(words@));
    bytes
}

/// Copies `N` bytes into an array.
pub fn bytes_to_array<const N: usize>(bytes: &[u8]) -> (out: [u8; N])
    requires
        bytes@.len() == N,
    ensures
        out@ == bytes@,
{
    let mut out = [0u8; N];
    let mut i: usize = 0;
    while i < N
        invariant
            i <= N,
            bytes@.len() == N,
            out@.len() == N,
            forall|j: int| 0 <= j < i ==> out@[j] == bytes@[j],
        decreases N - i,
    {
        out[i] = bytes[i];
        i += 1;
    }
    assert(out@ =~= bytes@);
    out
}

/// Writes `bytes` over the front of `out` and leaves the rest of `out` as
/// it was.
pub fn write_prefix(out: &mut [u8], bytes: &[u8])
    requires
        bytes@.len() <= old(out)@.len(),
    ensures
        final(out)@ == bytes@ + old(out)@.skip(bytes@.len() as int),
{
    let n: usize = bytes.len();
    let mut i: usize = 0;
    while i < n
        invariant
            i <= n,
            n == bytes@.len(),
            out@.len() == old(out)@.len(),
            n <= out@.len(),
            forall|j: int| 0 <= j < i ==> out@[j] == bytes@[j],
            forall|j: int| i <= j < out@.len() ==> out@[j] == old(out)@[j],
        decreases n - i,
    {
        out[i] = bytes[i];
        i += 1;
    }
    assert(out@ =~= bytes@ + old(out)@.skip(bytes@.len() as int));
}

/// The bytes of the word that four bytes pack to are those four bytes.
pub proof fn lemma_bytes_of_word(b0: u8, b1: u8, b2: u8, b3: u8)
    ensures
        be_byte(be_word(b0, b1, b2, b3), 0) == b0,
        be_byte(be_word(b0, b1, b2, b3), 1) == b1,
        be_byte(be_word(b0, b1, b2, b3), 2) == b2,
        be_byte(be_word(b0, b1, b2, b3), 3) == b3,
{
    let x: int = b0 as int * 0x100_0000 + b1 as int * 0x1_0000 + b2 as int * 0x100 + b3 as int;
    assert(0 <= x < 0x1_0000_0000);
    assert(be_word(b0, b1, b2, b3) as int == x);
    lemma_fundamental_div_mod_converse(
        x,
        0x100_0000,
        b0 as int,
        b1 as int * 0x1_0000 + b2 as int * 0x100 + b3 as int,
    );
    lemma_fundamental_div_mod_converse(b0 as int, 256, 0, b0 as int);
    lemma_fundamental_div_mod_converse(
        x,
        0x1_0000,
        b0 as int * 0x100 + b1 as int,
        b2 as int * 0x100 + b3 as int,
    );
    lemma_fundamental_div_mod_converse(b0 as int * 0x100 + b1 as int, 256, b0 as int, b1 as int);
    lemma_fundamental_div_mod_converse(
        x,
        0x100,
        b0 as int * 0x1_0000 + b1 as int * 0x100 + b2 as int,
        b3 as int,
    );
    lemma_fundamental_div_mod_converse(
        b0 as int * 0x1_0000 + b1 as int * 0x100 + b2 as int,
        256,
        b0 as int * 0x100 + b1 as int,
        b2 as int,
    );
    lemma_fundamental_div_mod_converse(x, 1, x, 0);
}

/// Unpacking the words that a whole number of words' worth of bytes packs
/// to gives the bytes back.
pub proof fn lemma_be_bytes_of_be_words(bytes: Seq<u8>)
    requires
        bytes.len() % 4 == 0,
    ensures
        be_bytes(be_words(bytes)) == bytes,
{
    let words = be_words(bytes);
    assert(4 * words.len() == bytes.len());
    assert forall|j: int| 0 <= j < bytes.len() implies be_bytes(words)[j] == bytes[j] by {
        let i = j / 4;
        let k = j % 4;
        assert(j == 4 * i + k);
        lemma_bytes_of_word(bytes[4 * i], bytes[4 * i + 1], bytes[4 * i + 2], bytes[4 * i + 3]);
    }
    assert(be_bytes(words) =~= bytes);
}

/// Constant-time comparison of two byte strings: every byte of equally long
/// inputs is looked at, whether or not an earlier one differed.
pub fn constant_time_eq(a: &[u8], b: &[u8]) -> (equal: bool)
    ensures
        equal == (a@ == b@),
{
    if a.len() != b.len() {
        return false;
    }
    let mut result: u8 = 0;
    let mut i: usize = 0;
    while i < a.len()
        invariant
            i <= a.len(),
            a.len() == b.len(),
            (result == 0) <==> (forall|j: int| 0 <= j < i ==> a@[j] == b@[j]),
        decreases a.len() - i,
    {
        let x: u8 = a[i];
        let y: u8 = b[i];
        let prev: u8 = result;
        result = prev | (x ^ y);
        assert((prev | (x ^ y)) == 0u8 <==> (prev == 0u8 && x == y)) by (bit_vector);
        i += 1;
    }
    assert((result == 0) ==> a@ =~= b@);
    result == 0
}

} // verus!
