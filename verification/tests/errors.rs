use openprot_digest::ecdsa::{AspeedEcdsaError, EcdsaError, EcdsaErrorKind};
use openprot_digest::error::{CryptoError, DigestError, ErrorKind, HmacError};

const ALL: [(DigestError, u16); 18] = [
    (DigestError::InvalidInputLength, 1),
    (DigestError::UnsupportedAlgorithm, 2),
    (DigestError::MemoryAllocationFailure, 3),
    (DigestError::InitializationError, 4),
    (DigestError::UpdateError, 5),
    (DigestError::FinalizationError, 6),
    (DigestError::Busy, 7),
    (DigestError::HardwareFailure, 8),
    (DigestError::InvalidOutputSize, 9),
    (DigestError::PermissionDenied, 10),
    (DigestError::NotInitialized, 11),
    (DigestError::InvalidSession, 12),
    (DigestError::TooManySessions, 13),
    (DigestError::InvalidKeyLength, 14),
    (DigestError::HmacVerificationFailed, 15),
    (DigestError::KeyRequired, 16),
    (DigestError::IncompatibleSessionType, 17),
    (DigestError::ServerRestarted, 100),
];

#[test]
fn every_error_has_its_code() {
    for (e, code) in ALL {
        assert_eq!(e.code(), code);
        assert_eq!(DigestError::from(code), e);
    }
}

#[test]
fn an_unknown_code_is_a_hardware_failure() {
    for code in [0u16, 18, 19, 99, 101, 255, 256, u16::MAX] {
        assert_eq!(DigestError::from(code), DigestError::HardwareFailure);
    }
}

#[test]
fn backend_errors_map_onto_the_service_errors() {
    let pairs = [
        (ErrorKind::InvalidInputLength, DigestError::InvalidInputLength),
        (ErrorKind::UnsupportedAlgorithm, DigestError::UnsupportedAlgorithm),
        (ErrorKind::MemoryAllocationFailure, DigestError::MemoryAllocationFailure),
        (ErrorKind::InitializationError, DigestError::InitializationError),
        (ErrorKind::UpdateError, DigestError::UpdateError),
        (ErrorKind::FinalizationError, DigestError::FinalizationError),
        (ErrorKind::Busy, DigestError::Busy),
        (ErrorKind::HardwareFailure, DigestError::HardwareFailure),
        (ErrorKind::InvalidOutputSize, DigestError::InvalidOutputSize),
        (ErrorKind::PermissionDenied, DigestError::PermissionDenied),
        (ErrorKind::NotInitialized, DigestError::NotInitialized),
        (ErrorKind::Other, DigestError::HardwareFailure),
    ];
    for (kind, expected) in pairs {
        assert_eq!(DigestError::from(kind), expected);
    }
}

#[test]
fn controller_errors_map_onto_hmac_errors() {
    assert_eq!(HmacError::from(CryptoError::InvalidKeyLength), HmacError::InvalidKeyLength);
    assert_eq!(HmacError::from(CryptoError::HardwareFailure), HmacError::HardwareFailure);
}

#[test]
fn ecdsa_error_codes() {
    let all = [
        (EcdsaError::InvalidKeyId, 1u8),
        (EcdsaError::KeyNotFound, 2),
        (EcdsaError::InvalidParameters, 3),
        (EcdsaError::VerificationFailed, 4),
        (EcdsaError::HardwareNotAvailable, 5),
        (EcdsaError::InvalidKeyType, 6),
        (EcdsaError::InternalError, 7),
        (EcdsaError::ServerRestarted, 8),
    ];
    for (e, code) in all {
        assert_eq!(e.code(), code);
        assert_eq!(EcdsaError::from_code(code), Some(e));
    }
    assert_eq!(EcdsaError::from_code(0), None);
    assert_eq!(EcdsaError::from_code(9), None);
    assert_eq!(EcdsaError::from_code(255), None);
}

#[test]
fn hardware_verifier_error_kinds() {
    assert_eq!(AspeedEcdsaError::InvalidSignature.kind(), EcdsaErrorKind::InvalidSignature);
    assert_eq!(AspeedEcdsaError::Busy.kind(), EcdsaErrorKind::Busy);
    assert_eq!(AspeedEcdsaError::BadInput.kind(), EcdsaErrorKind::InvalidKeyFormat);
    assert_eq!(AspeedEcdsaError::InvalidPoint.kind(), EcdsaErrorKind::InvalidPoint);
    assert_eq!(AspeedEcdsaError::WeakKey.kind(), EcdsaErrorKind::WeakKey);
    assert_eq!(AspeedEcdsaError::HardwareFailure.kind(), EcdsaErrorKind::Other);
}
