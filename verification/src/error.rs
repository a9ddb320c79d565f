//! The errors the service reports, and how backend errors map onto them.

use vstd::prelude::*;

verus! {

/// Errors that the digest service reports to its callers. Callers branch on
/// this closed set only.
#[derive(Copy, Clone, Debug, PartialEq, Eq, Structural)]
pub enum DigestError {
    /// The input data length is not valid for the hash function.
    InvalidInputLength,
    /// The specified hash algorithm is not supported.
    UnsupportedAlgorithm,
    /// Failed to allocate memory for the hash computation.
    MemoryAllocationFailure,
    /// Failed to initialize the hash computation context.
    InitializationError,
    /// Error occurred while updating the hash computation with new data.
    UpdateError,
    /// Error occurred while finalizing the hash computation.
    FinalizationError,
    /// The hardware accelerator is busy.
    Busy,
    /// General hardware failure during hash computation.
    HardwareFailure,
    /// The specified output size is not valid for the hash function.
    InvalidOutputSize,
    /// Insufficient permissions to perform the hash computation.
    PermissionDenied,
    /// The hash computation context has not been initialized.
    NotInitialized,
    /// Invalid session ID provided.
    InvalidSession,
    /// Maximum number of concurrent sessions exceeded.
    TooManySessions,
    /// Invalid key length for HMAC operation.
    InvalidKeyLength,
    /// HMAC verification failed.
    HmacVerificationFailed,
    /// Key is required for HMAC operations but was not provided.
    KeyRequired,
    /// HMAC operation attempted on a digest-only session.
    IncompatibleSessionType,
    /// The server restarted: every session id issued before is invalid.
    ServerRestarted,
}

/// Error classes that a hashing backend reports.
#[derive(Copy, Clone, Debug, PartialEq, Eq, Structural)]
pub enum ErrorKind {
    InvalidInputLength,
    UnsupportedAlgorithm,
    MemoryAllocationFailure,
    InitializationError,
    UpdateError,
    FinalizationError,
    Busy,
    HardwareFailure,
    InvalidOutputSize,
    PermissionDenied,
    NotInitialized,
    /// A class that has no counterpart among the service's errors.
    Other,
}

impl DigestError {
    /// The numeric code of an error on the wire.
    pub open spec fn spec_code(self) -> u16 {
        match self {
            DigestError::InvalidInputLength => 1,
            DigestError::UnsupportedAlgorithm => 2,
            DigestError::MemoryAllocationFailure => 3,
            DigestError::InitializationError => 4,
            DigestError::UpdateError => 5,
            DigestError::FinalizationError => 6,
            DigestError::Busy => 7,
            DigestError::HardwareFailure => 8,
            DigestError::InvalidOutputSize => 9,
            DigestError::PermissionDenied => 10,
            DigestError::NotInitialized => 11,
            DigestError::InvalidSession => 12,
            DigestError::TooManySessions => 13,
            DigestError::InvalidKeyLength => 14,
            DigestError::HmacVerificationFailed => 15,
            DigestError::KeyRequired => 16,
            DigestError::IncompatibleSessionType => 17,
            DigestError::ServerRestarted => 100,
        }
    }

    /// The error that a wire code stands for. The mapping is total: a code
    /// that no error has stands for `HardwareFailure`.
    pub open spec fn spec_from_code(val: u16) -> DigestError {
        match val {
            1 => DigestError::InvalidInputLength,
            2 => DigestError::UnsupportedAlgorithm,
            3 => DigestError::MemoryAllocationFailure,
            4 => DigestError::InitializationError,
            5 => DigestError::UpdateError,
            6 => DigestError::FinalizationError,
            7 => DigestError::Busy,
            8 => DigestError::HardwareFailure,
            9 => DigestError::InvalidOutputSize,
            10 => DigestError::PermissionDenied,
            11 => DigestError::NotInitialized,
            12 => DigestError::InvalidSession,
            13 => DigestError::TooManySessions,
            14 => DigestError::InvalidKeyLength,
            15 => DigestError::HmacVerificationFailed,
            16 => DigestError::KeyRequired,
            17 => DigestError::IncompatibleSessionType,
            100 => DigestError::ServerRestarted,
            _ => DigestError::HardwareFailure,
        }
    }

    /// The service error that a backend error class is reported as. The
    /// mapping is total: a class without a counterpart is reported as
    /// `HardwareFailure`.
    pub open spec fn spec_from_kind(kind: ErrorKind) -> DigestError {
        match kind {
            ErrorKind::InvalidInputLength => DigestError::InvalidInputLength,
            ErrorKind::UnsupportedAlgorithm => DigestError::UnsupportedAlgorithm,
            ErrorKind::MemoryAllocationFailure => DigestError::MemoryAllocationFailure,
            ErrorKind::InitializationError => DigestError::InitializationError,
            ErrorKind::UpdateError => DigestError::UpdateError,
            ErrorKind::FinalizationError => DigestError::FinalizationError,
            ErrorKind::Busy => DigestError::Busy,
            ErrorKind::HardwareFailure => DigestError::HardwareFailure,
            ErrorKind::InvalidOutputSize => DigestError::InvalidOutputSize,
            ErrorKind::PermissionDenied => DigestError::PermissionDenied,
            ErrorKind::NotInitialized => DigestError::NotInitialized,
            ErrorKind::Other => DigestError::HardwareFailure,
        }
    }

    /// The numeric code of this error on the wire.
    pub fn code(self) -> (c: u16)
        ensures
            c == self.spec_code(),
    {
        match self {
            DigestError::InvalidInputLength => 1,
            DigestError::UnsupportedAlgorithm => 2,
            DigestError::MemoryAllocationFailure => 3,
            DigestError::InitializationError => 4,
            DigestError::UpdateError => 5,
            DigestError::FinalizationError => 6,
            DigestError::Busy => 7,
            DigestError::HardwareFailure => 8,
            DigestError::InvalidOutputSize => 9,
            DigestError::PermissionDenied => 10,
            DigestError::NotInitialized => 11,
            DigestError::InvalidSession => 12,
            DigestError::TooManySessions => 13,
            DigestError::InvalidKeyLength => 14,
            DigestError::HmacVerificationFailed => 15,
            DigestError::KeyRequired => 16,
            DigestError::IncompatibleSessionType => 17,
            DigestError::ServerRestarted => 100,
        }
    }
}

impl From<u16> for DigestError {
    fn from(val: u16) -> (e: DigestError) {
        match val {
            1 => DigestError::InvalidInputLength,
            2 => DigestError::UnsupportedAlgorithm,
            3 => DigestError::MemoryAllocationFailure,
            4 => DigestError::InitializationError,
            5 => DigestError::UpdateError,
            6 => DigestError::FinalizationError,
            7 => DigestError::Busy,
            8 => DigestError::HardwareFailure,
            9 => DigestError::InvalidOutputSize,
            10 => DigestError::PermissionDenied,
            11 => DigestError::NotInitialized,
            12 => DigestError::InvalidSession,
            13 => DigestError::TooManySessions,
            14 => DigestError::InvalidKeyLength,
            15 => DigestError::HmacVerificationFailed,
            16 => DigestError::KeyRequired,
            17 => DigestError::IncompatibleSessionType,
            100 => DigestError::ServerRestarted,
            _ => DigestError::HardwareFailure,
        }
    }
}

impl vstd::std_specs::convert::FromSpecImpl<u16> for DigestError {
    open spec fn obeys_from_spec() -> bool {
        true
    }

    open spec fn from_spec(val: u16) -> DigestError {
        DigestError::spec_from_code(val)
    }
}

impl From<ErrorKind> for DigestError {
    fn from(kind: ErrorKind) -> (e: DigestError) {
        match kind {
            ErrorKind::InvalidInputLength => DigestError::InvalidInputLength,
            ErrorKind::UnsupportedAlgorithm => DigestError::UnsupportedAlgorithm,
            ErrorKind::MemoryAllocationFailure => DigestError::MemoryAllocationFailure,
            ErrorKind::InitializationError => DigestError::InitializationError,
            ErrorKind::UpdateError => DigestError::UpdateError,
            ErrorKind::FinalizationError => DigestError::FinalizationError,
            ErrorKind::Busy => DigestError::Busy,
            ErrorKind::HardwareFailure => DigestError::HardwareFailure,
            ErrorKind::InvalidOutputSize => DigestError::InvalidOutputSize,
            ErrorKind::PermissionDenied => DigestError::PermissionDenied,
            ErrorKind::NotInitialized => DigestError::NotInitialized,
            ErrorKind::Other => DigestError::HardwareFailure,
        }
    }
}

impl vstd::std_specs::convert::FromSpecImpl<ErrorKind> for DigestError {
    open spec fn obeys_from_spec() -> bool {
        true
    }

    open spec fn from_spec(kind: ErrorKind) -> DigestError {
        DigestError::spec_from_kind(kind)
    }
}

/// Every error is recovered from its own code.
pub proof fn lemma_code_round_trip(e: DigestError)
    ensures
        DigestError::spec_from_code(e.spec_code()) == e,
{
}

/// Errors of the software controller.
#[derive(Copy, Clone, Debug, PartialEq, Eq, Structural)]
pub enum CryptoError {
    /// The key is longer than the controller can hold.
    InvalidKeyLength,
    /// Any other failure.
    HardwareFailure,
}

/// Errors that can occur during the controller's HMAC operations.
#[derive(Copy, Clone, Debug, PartialEq, Eq, Structural)]
pub enum HmacError {
    InvalidKeyLength,
    HardwareFailure,
}

impl HmacError {
    pub open spec fn spec_from_crypto(err: CryptoError) -> HmacError {
        match err {
            CryptoError::InvalidKeyLength => HmacError::InvalidKeyLength,
            CryptoError::HardwareFailure => HmacError::HardwareFailure,
        }
    }
}

impl From<CryptoError> for HmacError {
    fn from(err: CryptoError) -> (e: HmacError) {
        match err {
            CryptoError::InvalidKeyLength => HmacError::InvalidKeyLength,
            _ => HmacError::HardwareFailure,
        }
    }
}

impl vstd::std_specs::convert::FromSpecImpl<CryptoError> for HmacError {
    open spec fn obeys_from_spec() -> bool {
        true
    }

    open spec fn from_spec(err: CryptoError) -> HmacError {
        HmacError::spec_from_crypto(err)
    }
}

} // verus!
