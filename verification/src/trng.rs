//! What the driver of the hardware random number generator computes: the
//! control word it writes, when it gives up waiting, and how the words it
//! reads become bytes.
//!
//! The generator has a control register, whose bit 0 disables it, whose
//! bits 1 to 5 hold its mode, and whose bit 31 tells that a word is ready,
//! and a data register that holds the word.

use vstd::prelude::*;

use crate::output::{be_byte, le_bytes, le_word};

verus! {

/// Base address of the generator's registers.
pub const TRNG_BASE: usize = 0x7E6E_D000;

/// Offset of the control register.
pub const CTRL_OFFSET: usize = 0x0;

/// Offset of the data register.
pub const DATA_OFFSET: usize = 0x4;

/// Control register: the generator is disabled.
pub const RNG_DISABLE: u32 = 0x1;

/// Control register: position of the mode field.
pub const RNG_MODE_SHIFT: u32 = 1;

/// Control register: width of the mode field, as a mask.
pub const RNG_MODE_MASK: u32 = 0x1F;

/// Control register: the mode the driver runs the generator in.
pub const RNG_MODE_VALUE: u32 = 0x18;

/// Control register: a word is ready.
pub const RNG_READY: u32 = 0x8000_0000;

/// How many more times the driver looks for a ready word after the first
/// look, before it gives up.
pub const READY_RETRIES: u32 = 10;

/// Errors of the generator's driver.
#[derive(Copy, Clone, Debug, PartialEq, Eq, Structural)]
pub enum TrngError {
    /// Timeout waiting for random data.
    Timeout,
    /// The generator is not initialized.
    NotInitialized,
}

/// Errors that the random number service reports to its callers.
#[derive(Copy, Clone, Debug, PartialEq, Eq, Structural)]
pub enum RngError {
    NoData,
    UnknownRngError,
}

/// What the service reports for an error of the driver.
pub fn rng_error(e: TrngError) -> (r: RngError)
    ensures
        r == (match e {
            TrngError::Timeout => RngError::NoData,
            TrngError::NotInitialized => RngError::UnknownRngError,
        }),
{
    match e {
        TrngError::Timeout => RngError::NoData,
        TrngError::NotInitialized => RngError::UnknownRngError,
    }
}

/// The control word that initializes the generator, given the word that is
/// in the register: the generator is enabled, the mode field holds the
/// driver's mode, and every other bit stays as it is.
pub fn init_control(ctrl: u32) -> (r: u32)
    ensures
        r & 0x1 == 0,
        (r >> 1) & 0x1F == 0x18,
        r & !0x3Fu32 == ctrl & !0x3Fu32,
{
    let enabled: u32 = ctrl & !RNG_DISABLE;
    let cleared: u32 = enabled & !(RNG_MODE_MASK << RNG_MODE_SHIFT);
    let r: u32 = cleared | (RNG_MODE_VALUE << RNG_MODE_SHIFT);
    assert(((ctrl & !0x1u32) & !(0x1Fu32 << 1u32)) | (0x18u32 << 1u32) == r);
    assert((((ctrl & !0x1u32) & !(0x1Fu32 << 1u32)) | (0x18u32 << 1u32)) & 0x1 == 0) by (bit_vector);
    assert(((((ctrl & !0x1u32) & !(0x1Fu32 << 1u32)) | (0x18u32 << 1u32)) >> 1) & 0x1F == 0x18)
        by (bit_vector);
    assert((((ctrl & !0x1u32) & !(0x1Fu32 << 1u32)) | (0x18u32 << 1u32)) & !0x3Fu32 == ctrl
        & !0x3Fu32) by (bit_vector);
    r
}

/// Whether a control word tells that a word is ready: its top bit is set.
pub fn data_ready(ctrl: u32) -> (ready: bool)
    ensures
        ready == (ctrl >= 0x8000_0000),
{
    assert((ctrl & 0x8000_0000u32 != 0) == (ctrl >= 0x8000_0000u32)) by (bit_vector);
    (ctrl & RNG_READY) != 0
}

/// What the driver does after a look at the control register.
#[derive(Copy, Clone, Debug, PartialEq, Eq, Structural)]
pub enum Poll {
    /// A word is ready: read it.
    Read,
    /// No word yet: look again, with one retry less.
    Retry { remaining: u32 },
    /// No word, and no retry left: give up with `Timeout`.
    TimedOut,
}

/// One step of waiting for a word: `ready` is what the control register
/// told, `remaining` the retries that are left.
pub fn poll_step(ready: bool, remaining: u32) -> (step: Poll)
    ensures
        step == (if ready {
            Poll::Read
        } else if remaining == 0 {
            Poll::TimedOut
        } else {
            Poll::Retry { remaining: (remaining - 1) as u32 }
        }),
{
    if ready {
        Poll::Read
    } else if remaining == 0 {
        Poll::TimedOut
    } else {
        Poll::Retry { remaining: remaining - 1 }
    }
}

/// The number of words that filling `len` bytes takes: a word for every
/// four bytes, and one more for what is left.
pub open spec fn words_needed(len: nat) -> nat {
    (len + 3) / 4
}

/// The number of words that filling `len` bytes takes.
pub fn word_count(len: usize) -> (n: usize)
    ensures
        n == words_needed(len as nat),
{
    if len % 4 == 0 {
        len / 4
    } else {
        len / 4 + 1
    }
}

/// Fills `buffer` from words read from the generator: each word gives four
/// bytes, the least significant first; of the last word only as many bytes
/// are used as the buffer has room for. Words beyond the need are not
/// looked at.
#[verifier::rlimit(40)]
pub fn fill_from_words(buffer: &mut [u8], words: &[u32])
    requires
        words@.len() >= words_needed(old(buffer)@.len()),
    ensures
        final(buffer)@ == le_bytes(words@).take(old(buffer)@.len() as int),
{
    let len: usize = buffer.len();
    let mut offset: usize = 0;
    while offset < len
        invariant
            offset <= len,
            len == old(buffer)@.len(),
            buffer@.len() == len,
            words@.len() >= words_needed(len as nat),
            forall|j: int| 0 <= j < offset ==> buffer@[j] == be_byte(words@[j / 4], 3 - j % 4),
        decreases len - offset,
    {
        let w: u32 = words[offset / 4];
        let k: usize = offset % 4;
        let byte: u8 = if k == 0 {
            (w % 0x100) as u8
        } else if k == 1 {
            ((w / 0x100) % 0x100) as u8
        } else if k == 2 {
            ((w / 0x1_0000) % 0x100) as u8
        } else {
            (w / 0x100_0000) as u8
        };
        buffer[offset] = byte;
        offset += 1;
    }
    assert(buffer@ =~= le_bytes(words@).take(len as int));
}

/// The driver of the generator, without its hands: it decides and
/// computes, and leaves reading and writing the registers to its caller.
///
/// A caller that wants random bytes reads the control register and calls
/// `prepare`, writes the word it gets back if it gets one, polls for the
/// words it needs with `poll_step`, and hands the words that came in time
/// to `read`, `get_u32` or `get_u64`.
pub struct Trng {
    base: usize,
    initialized: bool,
}

impl Trng {
    /// The address of the generator's registers.
    pub closed spec fn spec_base(&self) -> usize {
        self.base
    }

    /// Whether the generator has been initialized.
    pub closed spec fn spec_initialized(&self) -> bool {
        self.initialized
    }

    /// The registers lie within the address space.
    #[verifier::type_invariant]
    closed spec fn in_range(&self) -> bool {
        self.base + DATA_OFFSET <= usize::MAX
    }

    /// The driver of the generator at its usual place.
    pub fn new() -> (trng: Self)
        ensures
            trng.spec_base() == TRNG_BASE,
            !trng.spec_initialized(),
    {
        Trng { base: TRNG_BASE, initialized: false }
    }

    /// The driver of a generator whose registers are at `base`.
    pub fn with_base(base: usize) -> (trng: Self)
        requires
            base + DATA_OFFSET <= usize::MAX,
        ensures
            trng.spec_base() == base,
            !trng.spec_initialized(),
    {
        Trng { base, initialized: false }
    }

    /// Whether the generator has been initialized.
    pub fn is_initialized(&self) -> (initialized: bool)
        ensures
            initialized == self.spec_initialized(),
    {
        self.initialized
    }

    /// The address of the control register.
    pub fn control_register(&self) -> (address: usize)
        ensures
            address == self.spec_base() + CTRL_OFFSET,
    {
        proof {
            use_type_invariant(self);
        }
        self.base + CTRL_OFFSET
    }

    /// The address of the data register.
    pub fn data_register(&self) -> (address: usize)
        ensures
            address == self.spec_base() + DATA_OFFSET,
    {
        proof {
            use_type_invariant(self);
        }
        self.base + DATA_OFFSET
    }

    /// Initializes the generator: given the word that is in the control
    /// register, the word to write there.
    pub fn init(&mut self, ctrl: u32) -> (write: u32)
        ensures
            final(self).spec_initialized(),
            final(self).spec_base() == old(self).spec_base(),
            write & 0x1 == 0,
            (write >> 1) & 0x1F == 0x18,
            write & !0x3Fu32 == ctrl & !0x3Fu32,
    {
        proof {
            use_type_invariant(&*self);
        }
        self.initialized = true;
        init_control(ctrl)
    }

    /// What is due before the generator is polled for words: a generator
    /// that has not been initialized is initialized first. Given the word
    /// that is in the control register, the result is the word to write
    /// there, or nothing where the generator was initialized already.
    pub fn prepare(&mut self, ctrl: u32) -> (write: Option<u32>)
        ensures
            final(self).spec_initialized(),
            final(self).spec_base() == old(self).spec_base(),
            write is None <==> old(self).spec_initialized(),
            write matches Some(w) ==> w & 0x1 == 0 && (w >> 1) & 0x1F == 0x18 && w & !0x3Fu32 == ctrl
                & !0x3Fu32,
    {
        if self.initialized {
            None
        } else {
            Some(self.init(ctrl))
        }
    }

    /// Fills `buffer` from the words that the generator delivered before
    /// it timed out, if it did. With words for the whole buffer the call
    /// succeeds. With fewer, the bytes of the words that are there are
    /// written, the rest of the buffer stays as it was, and the call
    /// reports `Timeout`. The generator counts as initialized afterwards:
    /// its words were polled after `prepare`.
    #[verifier::rlimit(40)]
    pub fn read(&mut self, buffer: &mut [u8], words: &[u32]) -> (r: Result<(), TrngError>)
        ensures
            final(self).spec_initialized(),
            final(self).spec_base() == old(self).spec_base(),
            r == (if words@.len() >= words_needed(old(buffer)@.len()) {
                Ok::<(), TrngError>(())
            } else {
                Err::<(), TrngError>(TrngError::Timeout)
            }),
            r is Ok ==> final(buffer)@ == le_bytes(words@).take(old(buffer)@.len() as int),
            r is Err ==> final(buffer)@ == le_bytes(words@) + old(buffer)@.skip(
                4 * words@.len() as int,
            ),
    {
        proof {
            use_type_invariant(&*self);
        }
        self.initialized = true;
        if words.len() >= word_count(buffer.len()) {
            fill_from_words(buffer, words);
            return Ok(());
        }
        let len: usize = buffer.len();
        let available: usize = 4 * words.len();
        let mut offset: usize = 0;
        while offset < available
            invariant
                offset <= available,
                available == 4 * words@.len(),
                available < len,
                len == old(buffer)@.len(),
                buffer@.len() == len,
                forall|j: int| 0 <= j < offset ==> buffer@[j] == be_byte(words@[j / 4], 3 - j % 4),
                forall|j: int| offset <= j < len ==> buffer@[j] == old(buffer)@[j],
            decreases available - offset,
        {
            let w: u32 = words[offset / 4];
            let k: usize = offset % 4;
            let byte: u8 = if k == 0 {
                (w % 0x100) as u8
            } else if k == 1 {
                ((w / 0x100) % 0x100) as u8
            } else if k == 2 {
                ((w / 0x1_0000) % 0x100) as u8
            } else {
                (w / 0x100_0000) as u8
            };
            buffer[offset] = byte;
            offset += 1;
        }
        assert(buffer@ =~= le_bytes(words@) + old(buffer)@.skip(4 * words@.len() as int));
        Err(TrngError::Timeout)
    }

    /// Fills `buffer` from the words that the generator delivered; the same
    /// as `read`.
    pub fn get_random_bytes(&mut self, buffer: &mut [u8], words: &[u32]) -> (r: Result<(), TrngError>)
        ensures
            final(self).spec_initialized(),
            final(self).spec_base() == old(self).spec_base(),
            r == (if words@.len() >= words_needed(old(buffer)@.len()) {
                Ok::<(), TrngError>(())
            } else {
                Err::<(), TrngError>(TrngError::Timeout)
            }),
            r is Ok ==> final(buffer)@ == le_bytes(words@).take(old(buffer)@.len() as int),
            r is Err ==> final(buffer)@ == le_bytes(words@) + old(buffer)@.skip(
                4 * words@.len() as int,
            ),
    {
        self.read(buffer, words)
    }

    /// A random 32-bit number: the first word that the generator
    /// delivered; `Timeout` where it delivered none.
    pub fn get_u32(&mut self, words: &[u32]) -> (r: Result<u32, TrngError>)
        ensures
            final(self).spec_initialized(),
            final(self).spec_base() == old(self).spec_base(),
            r == (if words@.len() >= 1 {
                Ok::<u32, TrngError>(words@[0])
            } else {
                Err::<u32, TrngError>(TrngError::Timeout)
            }),
    {
        proof {
            use_type_invariant(&*self);
        }
        self.initialized = true;
        if words.len() >= 1 {
            Ok(words[0])
        } else {
            Err(TrngError::Timeout)
        }
    }

    /// A random 64-bit number: the first word that the generator delivered
    /// is its low half, the second its high half; `Timeout` where it
    /// delivered fewer than two.
    pub fn get_u64(&mut self, words: &[u32]) -> (r: Result<u64, TrngError>)
        ensures
            final(self).spec_initialized(),
            final(self).spec_base() == old(self).spec_base(),
            r == (if words@.len() >= 2 {
                Ok::<u64, TrngError>((words@[0] + 0x1_0000_0000 * words@[1]) as u64)
            } else {
                Err::<u64, TrngError>(TrngError::Timeout)
            }),
    {
        proof {
            use_type_invariant(&*self);
        }
        self.initialized = true;
        if words.len() >= 2 {
            Ok((words[0] as u64) + (words[1] as u64) * 0x1_0000_0000)
        } else {
            Err(TrngError::Timeout)
        }
    }
}

/// The word that four bytes stand for, the least significant first.
pub fn u32_from_le_bytes(buf: &[u8; 4]) -> (w: u32)
    ensures
        w == le_word(buf@[0], buf@[1], buf@[2], buf@[3]),
{
    (buf[3] as u32) * 0x100_0000 + (buf[2] as u32) * 0x1_0000 + (buf[1] as u32) * 0x100 + (
    buf[0] as u32)
}

/// The 64-bit number that eight bytes stand for, the least significant
/// first: its low half is the word of the first four bytes, its high half
/// the word of the last four.
pub fn u64_from_le_bytes(buf: &[u8; 8]) -> (w: u64)
    ensures
        w == le_word(buf@[0], buf@[1], buf@[2], buf@[3]) as int + 0x1_0000_0000 * (le_word(
            buf@[4],
            buf@[5],
            buf@[6],
            buf@[7],
        ) as int),
{
    let low: u64 = (buf[3] as u64) * 0x100_0000 + (buf[2] as u64) * 0x1_0000 + (buf[1] as u64)
        * 0x100 + (buf[0] as u64);
    let high: u64 = (buf[7] as u64) * 0x100_0000 + (buf[6] as u64) * 0x1_0000 + (buf[5] as u64)
        * 0x100 + (buf[4] as u64);
    low + high * 0x1_0000_0000
}

} // verus!
