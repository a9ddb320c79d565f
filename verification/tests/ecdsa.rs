use openprot_digest::ecdsa::{
    digest_from_hash, scalar_words, verify_poll, verify_status, AspeedEcdsa, AspeedEcdsaError,
    EcdsaError, EcdsaServer, P384PrivateKey, P384PublicKey, P384Signature, PlaceholderSigner,
    PlaceholderVerifier, VerifyPoll, VERIFY_RETRIES,
};
use openprot_digest::output::DigestOutput;

fn ramp(start: u8) -> [u8; 48] {
    let mut a = [0u8; 48];
    for (i, b) in a.iter_mut().enumerate() {
        *b = start.wrapping_add(i as u8);
    }
    a
}

#[test]
fn a_public_key_keeps_its_coordinates() {
    let key = P384PublicKey::new(ramp(0), ramp(100));
    assert_eq!(key.x(), &ramp(0));
    assert_eq!(key.y(), &ramp(100));
    let mut x = [0u8; 48];
    let mut y = [0u8; 48];
    key.coordinates(&mut x, &mut y);
    assert_eq!(x, ramp(0));
    assert_eq!(y, ramp(100));
}

#[test]
fn raw_coordinates_are_x_then_y() {
    let key = P384PublicKey::new(ramp(0), ramp(100));
    let raw = key.to_raw_coordinates();
    assert_eq!(&raw[..48], &ramp(0));
    assert_eq!(&raw[48..], &ramp(100));
    let back = P384PublicKey::from_raw_coordinates(&raw).unwrap();
    assert_eq!(back.x(), key.x());
    assert_eq!(back.y(), key.y());
}

#[test]
fn raw_coordinates_must_be_96_bytes() {
    for len in [0usize, 1, 48, 95, 97, 192] {
        let r = P384PublicKey::from_raw_coordinates(&vec![0u8; len]);
        assert_eq!(r.err(), Some(EcdsaError::InvalidParameters));
    }
    assert!(P384PublicKey::from_raw_coordinates(&[0u8; 96]).is_ok());
}

#[test]
fn a_signature_keeps_its_components() {
    let sig = P384Signature::new(ramp(1), ramp(2));
    let mut r = [0u8; 48];
    let mut s = [0u8; 48];
    sig.coordinates(&mut r, &mut s);
    assert_eq!(r, ramp(1));
    assert_eq!(s, ramp(2));
    let raw = sig.to_raw();
    assert_eq!(&raw[..48], &ramp(1));
    assert_eq!(&raw[48..], &ramp(2));
}

#[test]
fn a_private_key_is_always_valid_and_can_be_wiped() {
    let mut key = P384PrivateKey::new(ramp(9));
    assert!(key.validate().is_ok());
    assert_eq!(key.scalar(), &ramp(9));
    key.zeroize();
    assert_eq!(key.scalar(), &[0u8; 48]);
    assert!(key.validate().is_ok());
    assert!(P384PrivateKey::new([0u8; 48]).validate().is_ok());
    assert!(P384PrivateKey::new([0xffu8; 48]).validate().is_ok());
}

#[test]
fn the_placeholder_verifier_accepts_everything() {
    let mut v = PlaceholderVerifier;
    let key = P384PublicKey::new([0u8; 48], [0u8; 48]);
    let sig = P384Signature::new([0u8; 48], [0u8; 48]);
    assert_eq!(v.verify(&key, DigestOutput::new([0u32; 12]), &sig), Ok(()));
    let key = P384PublicKey::new(ramp(3), ramp(4));
    let sig = P384Signature::new(ramp(5), ramp(6));
    assert_eq!(v.verify(&key, DigestOutput::new([7u32; 12]), &sig), Ok(()));
}

#[test]
fn the_placeholder_signer_gives_its_fixed_signature() {
    let mut signer = PlaceholderSigner;
    let key = P384PrivateKey::new(ramp(0));
    let mut rng = 0u8;
    let sig = signer.sign(&key, DigestOutput::new([1u32; 12]), &mut rng).unwrap();
    let mut r = [0xffu8; 48];
    let mut s = [0xffu8; 48];
    sig.coordinates(&mut r, &mut s);
    assert_eq!(r, [0u8; 48]);
    let mut expected = [1u8; 48];
    expected[47] = 42;
    assert_eq!(s, expected);
}

#[test]
fn hash_bytes_become_big_endian_words() {
    let digest = digest_from_hash(&ramp(0));
    assert_eq!(digest.value[0], 0x00010203);
    assert_eq!(digest.value[11], 0x2c2d2e2f);
    let mut expected = [0u32; 12];
    for (i, chunk) in ramp(0).chunks_exact(4).enumerate() {
        expected[i] = u32::from_be_bytes([chunk[0], chunk[1], chunk[2], chunk[3]]);
    }
    assert_eq!(digest.value, expected);
}

#[test]
fn scalars_go_to_the_verifier_as_little_endian_words() {
    let words = scalar_words(&ramp(0));
    assert_eq!(words[0], 0x03020100);
    assert_eq!(words[11], 0x2f2e2d2c);
}

#[test]
fn a_verification_only_server_does_not_sign() {
    let mut server: EcdsaServer<(), PlaceholderVerifier> =
        EcdsaServer::new_verification_only(PlaceholderVerifier);
    assert_eq!(
        server.ecdsa384_sign(1, &[0u8; 48]).err(),
        Some(EcdsaError::HardwareNotAvailable)
    );
    assert_eq!(
        server.ecdsa384_sign(1, &[0u8; 3]).err(),
        Some(EcdsaError::HardwareNotAvailable)
    );
}

#[test]
fn a_signing_server_checks_the_hash_length() {
    let mut server = EcdsaServer::new_with_signing(PlaceholderSigner, PlaceholderVerifier);
    assert_eq!(server.ecdsa384_sign(1, &[0u8; 47]).err(), Some(EcdsaError::InvalidParameters));
    assert_eq!(server.ecdsa384_sign(1, &[0u8; 49]).err(), Some(EcdsaError::InvalidParameters));
    assert_eq!(server.ecdsa384_sign(1, &[0u8; 48]).err(), Some(EcdsaError::InternalError));
}

#[test]
fn verification_checks_every_length() {
    let mut server: EcdsaServer<(), PlaceholderVerifier> =
        EcdsaServer::new_verification_only(PlaceholderVerifier);
    let h = [0u8; 48];
    let s = [0u8; 96];
    let k = [0u8; 96];
    assert_eq!(server.ecdsa384_verify(&h[..47], &s, &k), Err(EcdsaError::InvalidParameters));
    assert_eq!(server.ecdsa384_verify(&h, &s[..95], &k), Err(EcdsaError::InvalidParameters));
    assert_eq!(server.ecdsa384_verify(&h, &s, &k[..1]), Err(EcdsaError::InvalidParameters));
    assert_eq!(server.ecdsa384_verify(&h, &s, &k), Err(EcdsaError::HardwareNotAvailable));
}

#[test]
fn the_verifier_status_word() {
    assert_eq!(verify_status(0), None);
    assert_eq!(verify_status(1 << 21), None);
    assert_eq!(verify_status(!(1u32 << 20)), None);
    assert_eq!(verify_status(1 << 20), Some(Err(AspeedEcdsaError::InvalidSignature)));
    assert_eq!(verify_status((1 << 20) | (1 << 21)), Some(Ok(())));
    assert_eq!(verify_status(u32::MAX), Some(Ok(())));
    assert_eq!(
        verify_status(u32::MAX & !(1 << 21)),
        Some(Err(AspeedEcdsaError::InvalidSignature))
    );
}

#[test]
fn waiting_for_the_verifier_step_by_step() {
    let done = 1u32 << 20;
    let valid = done | (1 << 21);
    assert_eq!(verify_poll(valid, 1000), VerifyPoll::Valid);
    assert_eq!(verify_poll(done, 1000), VerifyPoll::Invalid);
    assert_eq!(verify_poll(valid, 1), VerifyPoll::Valid);
    assert_eq!(verify_poll(0, 1000), VerifyPoll::Retry { remaining: 999 });
    assert_eq!(verify_poll(0, 2), VerifyPoll::Retry { remaining: 1 });
    assert_eq!(verify_poll(0, 1), VerifyPoll::GaveUp);
    assert_eq!(verify_poll(valid, 0), VerifyPoll::GaveUp);
}

#[test]
fn the_first_status_that_is_done_decides() {
    let done = 1u32 << 20;
    let valid = done | (1 << 21);
    let mut v = AspeedEcdsa::new();
    assert_eq!(VERIFY_RETRIES, 1000);
    assert_eq!(v.verify(&[valid]), Ok(()));
    assert_eq!(v.verify(&[done]), Err(AspeedEcdsaError::InvalidSignature));
    assert_eq!(v.verify(&[0, 0, valid, done]), Ok(()));
    assert_eq!(v.verify(&[0, done, valid]), Err(AspeedEcdsaError::InvalidSignature));
    assert_eq!(v.verify(&[]), Err(AspeedEcdsaError::Busy));
    assert_eq!(v.verify(&[0, 0, 0]), Err(AspeedEcdsaError::Busy));
    // the verdict may come with the last look, and not after it
    let mut statuses = vec![0u32; 1001];
    assert_eq!(v.verify(&statuses), Err(AspeedEcdsaError::Busy));
    statuses[1000] = valid;
    assert_eq!(v.verify(&statuses), Err(AspeedEcdsaError::Busy));
    statuses[999] = valid;
    assert_eq!(v.verify(&statuses), Ok(()));
}
