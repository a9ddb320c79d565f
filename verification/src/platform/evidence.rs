//! Evidence for the SPDM responder. No measurements are taken yet.

use vstd::prelude::*;

verus! {

/// What the evidence source reports when it cannot do what it was asked.
#[derive(Copy, Clone, Debug, PartialEq, Eq, Structural)]
pub enum SpdmEvidenceError {
    InvalidEvidenceFormat,
}

/// The evidence source of the platform. It has no quote to give.
pub struct DemoEvidence;

impl DemoEvidence {
    pub fn new() -> (evidence: Self) {
        DemoEvidence
    }

    /// Writes the PCR quote into `buffer` and reports its length. There is
    /// no quote: nothing is written, the length is 0.
    pub fn pcr_quote(&self, buffer: &mut [u8], _with_pqc_sig: bool) -> (r: Result<
        usize,
        SpdmEvidenceError,
    >)
        ensures
            r == Ok::<usize, SpdmEvidenceError>(0),
            final(buffer)@ == old(buffer)@,
    {
        Ok(0)
    }

    /// The size of the PCR quote: 0, as there is none.
    pub fn pcr_quote_size(&self, _with_pqc_sig: bool) -> (r: Result<usize, SpdmEvidenceError>)
        ensures
            r == Ok::<usize, SpdmEvidenceError>(0),
    {
        Ok(0)
    }
}

} // verus!
