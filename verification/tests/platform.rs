use openprot_digest::platform::cert_store::{
    place_signature, CertStoreError, ChainCertStore, DemoCertStore, MAX_CERT_CHAIN_SIZE,
};
use openprot_digest::platform::{create_device_capabilities, create_platform_cert_store};
use openprot_digest::platform::evidence::DemoEvidence;
use openprot_digest::platform::hash::DigestHash;
use openprot_digest::platform::hash_sha2::Sha2Hash;
use openprot_digest::platform::{SpdmHashAlgoType, SpdmHashError};
use openprot_digest::rustcrypto::RustCryptoController;
use openprot_digest::server::ServerImpl;
use p384::ecdsa::signature::Verifier;

fn server() -> ServerImpl<RustCryptoController> {
    ServerImpl::new(RustCryptoController::new())
}

fn unhex(s: &str) -> Vec<u8> {
    let digits: Vec<u8> = s.bytes().map(|c| (c as char).to_digit(16).unwrap() as u8).collect();
    digits.chunks(2).map(|p| p[0] * 16 + p[1]).collect()
}

const ABC_384: &str = "cb00753f45a35e8bb5a03d699ac65007272c32ab0eded1631a8b605a43ff5bed8086072ba1e7cc2358baeca134c825a7";
const ABC_512: &str = "ddaf35a193617abacc417349ae20413112e6fa4e89a97ea20a9eeee64b55d39a2192992a274fc1a836ba3c23a3feebbd454d4423643ce80e2a9ac94fa54ca49f";

#[test]
fn hash_sizes() {
    assert_eq!(SpdmHashAlgoType::SHA384.hash_size(), 48);
    assert_eq!(SpdmHashAlgoType::SHA512.hash_size(), 64);
}

#[test]
fn digest_hash_one_call() {
    let mut s = server();
    let mut h = DigestHash::new();
    assert_eq!(h.algo(), SpdmHashAlgoType::SHA384);
    let mut out = [0xeeu8; 50];
    assert_eq!(h.hash(&mut s, SpdmHashAlgoType::SHA384, b"abc", &mut out), Ok(()));
    assert_eq!(&out[..48], &unhex(ABC_384)[..]);
    assert_eq!(&out[48..], &[0xee, 0xee]);
    let mut out = [0u8; 64];
    assert_eq!(h.hash(&mut s, SpdmHashAlgoType::SHA512, b"abc", &mut out), Ok(()));
    assert_eq!(&out[..], &unhex(ABC_512)[..]);
    assert_eq!(s.session_count(), 0);
    assert!(s.engine_available());
}

#[test]
fn digest_hash_one_call_refuses_long_data() {
    let mut s = server();
    let mut h = DigestHash::new();
    let mut out = [0xeeu8; 48];
    assert_eq!(
        h.hash(&mut s, SpdmHashAlgoType::SHA384, &[0u8; 1025], &mut out),
        Err(SpdmHashError::PlatformError)
    );
    assert_eq!(out, [0xeeu8; 48]);
}

#[test]
fn digest_hash_streams_in_pieces() {
    let mut s = server();
    let mut h = DigestHash::new();
    let data = [0x61u8; 3000];
    assert_eq!(h.init(&mut s, SpdmHashAlgoType::SHA512, None, 0), Ok(()));
    assert_eq!(h.algo(), SpdmHashAlgoType::SHA512);
    assert_eq!(h.update(&mut s, &data), Ok(()));
    let mut streamed = [0u8; 64];
    assert_eq!(h.finalize(&mut s, &mut streamed), Ok(()));
    assert_eq!(s.session_count(), 0);

    // the same message through the software platform
    let mut soft = Sha2Hash::new();
    let mut expected = [0u8; 64];
    assert_eq!(soft.hash(SpdmHashAlgoType::SHA512, &data, &mut expected), Ok(()));
    assert_eq!(streamed, expected);
}

#[test]
fn digest_hash_with_initial_data() {
    let mut s = server();
    let mut h = DigestHash::new();
    assert_eq!(h.init(&mut s, SpdmHashAlgoType::SHA384, Some(b"a"), 0), Ok(()));
    assert_eq!(h.update(&mut s, b"bc"), Ok(()));
    assert_eq!(h.update(&mut s, b""), Ok(()));
    let mut out = [0u8; 48];
    assert_eq!(h.finalize(&mut s, &mut out), Ok(()));
    assert_eq!(&out[..], &unhex(ABC_384)[..]);
    // the hash is over: there is nothing to update or finish
    assert_eq!(h.update(&mut s, b"x"), Err(SpdmHashError::PlatformError));
    assert_eq!(h.finalize(&mut s, &mut out), Err(SpdmHashError::PlatformError));
    assert_eq!(&out[..], &unhex(ABC_384)[..]);
}

#[test]
fn digest_hash_without_a_session() {
    let mut s = server();
    let mut h = DigestHash::new();
    let mut out = [0x11u8; 64];
    assert_eq!(h.update(&mut s, b"abc"), Err(SpdmHashError::PlatformError));
    assert_eq!(h.finalize(&mut s, &mut out), Err(SpdmHashError::PlatformError));
    assert_eq!(out, [0x11u8; 64]);
    h.reset(&mut s);
    assert_eq!(s.session_count(), 0);
}

#[test]
fn digest_hash_needs_the_engine() {
    let mut s = server();
    let mut first = DigestHash::new();
    let mut second = DigestHash::new();
    assert_eq!(first.init(&mut s, SpdmHashAlgoType::SHA384, None, 0), Ok(()));
    assert_eq!(
        second.init(&mut s, SpdmHashAlgoType::SHA384, None, 0),
        Err(SpdmHashError::PlatformError)
    );
    let mut out = [0u8; 48];
    assert_eq!(
        second.hash(&mut s, SpdmHashAlgoType::SHA384, b"abc", &mut out),
        Err(SpdmHashError::PlatformError)
    );
    assert_eq!(first.update(&mut s, b"abc"), Ok(()));
    assert_eq!(first.finalize(&mut s, &mut out), Ok(()));
    assert_eq!(&out[..], &unhex(ABC_384)[..]);
    assert_eq!(second.init(&mut s, SpdmHashAlgoType::SHA384, None, 0), Ok(()));
}

#[test]
fn digest_hash_reset_forgets_the_session() {
    let mut s = server();
    let mut h = DigestHash::new();
    h.init(&mut s, SpdmHashAlgoType::SHA384, Some(b"junk"), 0).unwrap();
    h.reset(&mut s);
    assert_eq!(h.update(&mut s, b"abc"), Err(SpdmHashError::PlatformError));
    // the session is still in the server's table, started over
    assert_eq!(s.session_count(), 1);
    s.update(1, b"abc").unwrap();
    let words = s.finalize_sha384(1).unwrap();
    assert_eq!(words[0], 0xcb00753f);
}

#[test]
fn sha2_hash_one_call() {
    let mut h = Sha2Hash::new();
    assert_eq!(h.algo(), SpdmHashAlgoType::SHA384);
    let mut out = [0xeeu8; 50];
    assert_eq!(h.hash(SpdmHashAlgoType::SHA384, b"abc", &mut out), Ok(()));
    assert_eq!(&out[..48], &unhex(ABC_384)[..]);
    assert_eq!(&out[48..], &[0xee, 0xee]);
    let mut out = [0u8; 64];
    assert_eq!(h.hash(SpdmHashAlgoType::SHA512, b"abc", &mut out), Ok(()));
    assert_eq!(&out[..], &unhex(ABC_512)[..]);
}

#[test]
fn sha2_hash_refuses_a_short_buffer() {
    let mut h = Sha2Hash::new();
    let mut out = [0xeeu8; 47];
    assert_eq!(
        h.hash(SpdmHashAlgoType::SHA384, b"abc", &mut out),
        Err(SpdmHashError::PlatformError)
    );
    assert_eq!(out, [0xeeu8; 47]);
    let mut out = [0xeeu8; 63];
    assert_eq!(
        h.hash(SpdmHashAlgoType::SHA512, b"abc", &mut out),
        Err(SpdmHashError::PlatformError)
    );
    h.init(SpdmHashAlgoType::SHA512, Some(b"abc")).unwrap();
    assert_eq!(h.finalize(&mut out), Err(SpdmHashError::PlatformError));
    assert_eq!(out, [0xeeu8; 63]);
    // the hash in progress went with the failed call
    let mut out = [0u8; 64];
    assert_eq!(h.finalize(&mut out), Err(SpdmHashError::PlatformError));
}

#[test]
fn sha2_hash_streams() {
    let mut h = Sha2Hash::new();
    assert_eq!(h.update(b"abc"), Err(SpdmHashError::PlatformError));
    assert_eq!(h.init(SpdmHashAlgoType::SHA512, Some(b"a")), Ok(()));
    assert_eq!(h.algo(), SpdmHashAlgoType::SHA512);
    assert_eq!(h.update(b"b"), Ok(()));
    assert_eq!(h.update(b"c"), Ok(()));
    let mut out = [0u8; 64];
    assert_eq!(h.finalize(&mut out), Ok(()));
    assert_eq!(&out[..], &unhex(ABC_512)[..]);
    assert_eq!(h.update(b"abc"), Err(SpdmHashError::PlatformError));

    assert_eq!(h.init(SpdmHashAlgoType::SHA384, None), Ok(()));
    h.update(b"junk").unwrap();
    h.reset();
    assert_eq!(h.update(b"abc"), Err(SpdmHashError::PlatformError));
    assert_eq!(h.init(SpdmHashAlgoType::SHA384, None), Ok(()));
    h.update(b"abc").unwrap();
    let mut out = [0u8; 48];
    assert_eq!(h.finalize(&mut out), Ok(()));
    assert_eq!(&out[..], &unhex(ABC_384)[..]);
}

#[test]
fn the_evidence_source_has_no_quote() {
    let e = DemoEvidence::new();
    let mut buffer = [0x55u8; 8];
    assert_eq!(e.pcr_quote(&mut buffer, false), Ok(0));
    assert_eq!(e.pcr_quote(&mut buffer, true), Ok(0));
    assert_eq!(buffer, [0x55u8; 8]);
    assert_eq!(e.pcr_quote_size(false), Ok(0));
    assert_eq!(e.pcr_quote_size(true), Ok(0));
}

#[test]
fn the_certificate_store_is_a_stand_in() {
    let mut store: DemoCertStore = create_platform_cert_store();
    assert_eq!(store.slot_count(), 1);
    assert!(store.is_provisioned(0));
    assert!(store.is_provisioned(7));
    assert_eq!(store.cert_chain_len(0), Ok(0));
    let mut out = [0x55u8; 16];
    assert_eq!(store.get_cert_chain(0, 0, &mut out), Ok(0));
    assert_eq!(out, [0x55u8; 16]);
    let mut hash = [0x55u8; 48];
    assert_eq!(store.root_cert_hash(0, &mut hash), Ok(()));
    assert_eq!(hash, [0x55u8; 48]);
    let mut sig = [0x55u8; 96];
    assert_eq!(store.sign_hash(0, &[1u8; 48], &mut sig), Ok(()));
    assert_eq!(sig, [0u8; 96]);
    assert_eq!(store.key_pair_id(0), Some(0));
}

#[test]
fn the_chain_is_handed_out_piece_by_piece() {
    let chain: Vec<u8> = (0u8..100).collect();
    let mut store = ChainCertStore::new(chain.clone(), b"abc".to_vec()).unwrap();
    assert_eq!(store.slot_count(), 1);
    assert!(store.is_provisioned(0));
    assert_eq!(store.cert_chain_len(0), Ok(100));
    let mut out = [0xeeu8; 40];
    assert_eq!(store.get_cert_chain(0, 0, &mut out), Ok(40));
    assert_eq!(&out[..], &chain[..40]);
    assert_eq!(store.get_cert_chain(0, 40, &mut out), Ok(40));
    assert_eq!(&out[..], &chain[40..80]);
    let mut out = [0xeeu8; 40];
    assert_eq!(store.get_cert_chain(0, 80, &mut out), Ok(20));
    assert_eq!(&out[..20], &chain[80..]);
    assert_eq!(&out[20..], &[0xeeu8; 20]);
    let mut out = [0xeeu8; 4];
    assert_eq!(store.get_cert_chain(0, 99, &mut out), Ok(1));
    assert_eq!(out, [99, 0xee, 0xee, 0xee]);
    assert_eq!(store.get_cert_chain(0, 100, &mut out), Ok(0));
    assert_eq!(store.get_cert_chain(0, usize::MAX, &mut out), Ok(0));
    assert_eq!(out, [99, 0xee, 0xee, 0xee]);
    let mut none = [0u8; 0];
    assert_eq!(store.get_cert_chain(0, 10, &mut none), Ok(0));
}

#[test]
fn only_slot_zero_holds_a_chain() {
    let mut store = ChainCertStore::new(vec![1, 2, 3], b"abc".to_vec()).unwrap();
    let mut out = [0xeeu8; 4];
    assert_eq!(store.get_cert_chain(1, 0, &mut out), Err(CertStoreError::InvalidSlotId));
    assert_eq!(out, [0xeeu8; 4]);
    let mut hash = [0xeeu8; 48];
    assert_eq!(store.root_cert_hash(3, &mut hash), Err(CertStoreError::InvalidSlotId));
    assert_eq!(hash, [0xeeu8; 48]);
    assert_eq!(store.key_pair_id(0), Some(1));
    assert_eq!(store.key_pair_id(1), None);
}

#[test]
fn the_root_certificate_hash_is_its_sha384() {
    let mut store = ChainCertStore::new(Vec::new(), b"abc".to_vec()).unwrap();
    let mut hash = [0u8; 48];
    assert_eq!(store.root_cert_hash(0, &mut hash), Ok(()));
    assert_eq!(&hash[..], &unhex(ABC_384)[..]);
}

#[test]
fn a_chain_has_a_largest_size() {
    assert_eq!(MAX_CERT_CHAIN_SIZE, 16384);
    assert!(ChainCertStore::new(vec![0u8; 16384], Vec::new()).is_ok());
    assert_eq!(
        ChainCertStore::new(vec![0u8; 16385], Vec::new()).err(),
        Some(CertStoreError::BufferTooSmall)
    );
}

#[test]
fn the_capabilities_of_the_responder() {
    let c = create_device_capabilities();
    assert_eq!(c.ct_exponent, 0);
    assert_eq!(c.flags, (1 << 1) | (1 << 2) | (2 << 3) | (1 << 5) | (1 << 17));
    assert_eq!(c.flags, 0x20036);
    assert_eq!(c.data_transfer_size, 1024);
    assert_eq!(c.max_spdm_msg_size, 4096);
}

fn demo_scalar() -> [u8; 48] {
    let mut scalar = [0u8; 48];
    for (i, b) in scalar.iter_mut().enumerate() {
        *b = i as u8 + 1;
    }
    scalar
}

#[test]
fn the_store_signs_with_the_demonstration_key() {
    let store = ChainCertStore::new(Vec::new(), Vec::new()).unwrap();
    let hash = [0x5au8; 48];
    let mut out = [0xeeu8; 96];
    assert_eq!(store.sign_hash(0, &hash, &mut out), Ok(()));
    assert_ne!(out, [0xeeu8; 96]);
    assert_ne!(&out[..48], &hash[..]);

    // the key's public half accepts the signature for this hash, and for
    // no other
    let key = p384::ecdsa::SigningKey::from_slice(&demo_scalar()).unwrap();
    let verifying_key = p384::ecdsa::VerifyingKey::from(&key);
    let signature = p384::ecdsa::Signature::from_slice(&out).unwrap();
    assert!(verifying_key.verify(&hash, &signature).is_ok());
    assert!(verifying_key.verify(&[0x5bu8; 48], &signature).is_err());
}

#[test]
fn a_signature_depends_on_the_hash_alone() {
    let store = ChainCertStore::new(vec![1, 2, 3], b"abc".to_vec()).unwrap();
    let other = ChainCertStore::new(Vec::new(), Vec::new()).unwrap();
    let mut first = [0u8; 96];
    let mut second = [0u8; 96];
    let mut third = [0u8; 96];
    assert_eq!(store.sign_hash(0, &[1u8; 48], &mut first), Ok(()));
    assert_eq!(other.sign_hash(5, &[1u8; 48], &mut second), Ok(()));
    assert_eq!(store.sign_hash(0, &[2u8; 48], &mut third), Ok(()));
    assert_eq!(first, second);
    assert_ne!(first, third);
}

#[test]
fn where_a_signature_goes() {
    let mut out = [0xeeu8; 96];
    assert_eq!(place_signature(None, &mut out), Err(CertStoreError::PlatformError));
    assert_eq!(out, [0xeeu8; 96]);
    assert_eq!(place_signature(Some(vec![7u8; 97]), &mut out), Err(CertStoreError::BufferTooSmall));
    assert_eq!(out, [0xeeu8; 96]);
    assert_eq!(place_signature(Some(vec![7u8; 96]), &mut out), Ok(()));
    assert_eq!(out, [7u8; 96]);
    assert_eq!(place_signature(Some(vec![9u8; 10]), &mut out), Ok(()));
    assert_eq!(&out[..10], &[9u8; 10]);
    assert_eq!(&out[10..], &[0u8; 86]);
    assert_eq!(place_signature(Some(Vec::new()), &mut out), Ok(()));
    assert_eq!(out, [0u8; 96]);
}
