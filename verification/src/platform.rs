//! The platform side of the SPDM responder: hashing, evidence and the
//! certificate store.

use vstd::prelude::*;

use crate::algorithm::DigestAlgorithm;

pub mod cert_store;
pub mod evidence;
pub mod hash;
pub mod hash_sha2;
pub mod signing;

verus! {

/// The hash algorithms the responder negotiates.
#[derive(Copy, Clone, Debug, PartialEq, Eq, Structural)]
pub enum SpdmHashAlgoType {
    SHA384,
    SHA512,
}

/// What the hash platform reports when it cannot do what it was asked.
#[derive(Copy, Clone, Debug, PartialEq, Eq, Structural)]
pub enum SpdmHashError {
    PlatformError,
}

impl SpdmHashAlgoType {
    /// The digest algorithm of the server that computes this hash.
    pub open spec fn spec_algorithm(self) -> DigestAlgorithm {
        match self {
            SpdmHashAlgoType::SHA384 => DigestAlgorithm::Sha384,
            SpdmHashAlgoType::SHA512 => DigestAlgorithm::Sha512,
        }
    }

    /// The digest algorithm of the server that computes this hash.
    #[verifier::when_used_as_spec(spec_algorithm)]
    pub fn algorithm(self) -> (a: DigestAlgorithm)
        ensures
            a == self.spec_algorithm(),
    {
        match self {
            SpdmHashAlgoType::SHA384 => DigestAlgorithm::Sha384,
            SpdmHashAlgoType::SHA512 => DigestAlgorithm::Sha512,
        }
    }

    /// The size of the hash in bytes.
    pub open spec fn spec_hash_size(self) -> usize {
        match self {
            SpdmHashAlgoType::SHA384 => 48,
            SpdmHashAlgoType::SHA512 => 64,
        }
    }

    /// The size of the hash in bytes.
    #[verifier::when_used_as_spec(spec_hash_size)]
    pub fn hash_size(self) -> (n: usize)
        ensures
            n == self.spec_hash_size(),
    {
        match self {
            SpdmHashAlgoType::SHA384 => 48,
            SpdmHashAlgoType::SHA512 => 64,
        }
    }
}

/// What the responder tells of itself when capabilities are negotiated.
#[derive(Copy, Clone, Debug, PartialEq, Eq, Structural)]
pub struct DeviceCapabilities {
    pub ct_exponent: u8,
    pub flags: u32,
    pub data_transfer_size: u32,
    pub max_spdm_msg_size: u32,
}

/// Capability flag: the responder has certificates.
pub const CERT_CAP: u32 = 0x2;

/// Capability flag: the responder answers challenges.
pub const CHAL_CAP: u32 = 0x4;

/// Capability field: the responder gives measurements, with signature.
pub const MEAS_CAP_WITH_SIGNATURE: u32 = 0x10;

/// Capability flag: measurements are taken afresh on request.
pub const MEAS_FRESH_CAP: u32 = 0x20;

/// Capability flag: large messages are sent in chunks.
pub const CHUNK_CAP: u32 = 0x2_0000;

/// The capabilities of the responder: every flag above, 1024 bytes to a
/// transfer, 4096 bytes to a message.
pub fn create_device_capabilities() -> (capabilities: DeviceCapabilities)
    ensures
        capabilities == (DeviceCapabilities {
            ct_exponent: 0,
            flags: 0x2_0036,
            data_transfer_size: 1024,
            max_spdm_msg_size: 4096,
        }),
{
    let flags: u32 = CERT_CAP | CHAL_CAP | MEAS_CAP_WITH_SIGNATURE | MEAS_FRESH_CAP | CHUNK_CAP;
    assert(0x2u32 | 0x4u32 | 0x10u32 | 0x20u32 | 0x2_0000u32 == 0x2_0036u32) by (bit_vector);
    DeviceCapabilities { ct_exponent: 0, flags, data_transfer_size: 1024, max_spdm_msg_size: 4096 }
}

/// The certificate store of the platform.
pub fn create_platform_cert_store() -> (store: cert_store::DemoCertStore) {
    cert_store::DemoCertStore::new()
}

} // verus!
