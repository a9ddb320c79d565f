use openprot_digest::adapter::{checked_len, mac_words_256, mac_words_384, mac_words_512, payload};
use openprot_digest::algorithm::{
    DigestAlgorithm, HMAC_SHA256_MAX_KEY_SIZE, HMAC_SHA384_MAX_KEY_SIZE, HMAC_SHA512_MAX_KEY_SIZE,
    MAX_DATA_SIZE, SHA256_WORDS, SHA384_WORDS, SHA512_WORDS,
};
use openprot_digest::error::DigestError;
use openprot_digest::output::{
    bytes_to_array, constant_time_eq, words_from_be_bytes, words_from_le_bytes, words_to_be_bytes,
    write_prefix, DigestAsBytes, DigestOutput,
};

#[test]
fn constant_time_eq_compares_contents() {
    assert!(constant_time_eq(b"", b""));
    assert!(constant_time_eq(b"abc", b"abc"));
    assert!(!constant_time_eq(b"abc", b"abd"));
    assert!(!constant_time_eq(b"abc", b"xbc"));
    assert!(!constant_time_eq(b"abc", b"ab"));
    assert!(!constant_time_eq(b"", b"a"));
    assert!(!constant_time_eq(&[0u8; 32], &[0u8; 33]));
    let mut other = [7u8; 64];
    assert!(constant_time_eq(&[7u8; 64], &other));
    other[63] ^= 0x80;
    assert!(!constant_time_eq(&[7u8; 64], &other));
}

#[test]
fn words_pack_big_endian() {
    let words: [u32; 2] = words_from_be_bytes::<2>(&[0x01, 0x02, 0x03, 0x04, 0xff, 0xfe, 0xfd, 0xfc]);
    assert_eq!(words, [0x01020304, 0xfffefdfc]);
    let none: [u32; 0] = words_from_be_bytes::<0>(&[]);
    assert_eq!(none.len(), 0);
}

#[test]
fn words_pack_little_endian() {
    let words: [u32; 2] = words_from_le_bytes::<2>(&[0x01, 0x02, 0x03, 0x04, 0xff, 0xfe, 0xfd, 0xfc]);
    assert_eq!(words, [0x04030201, 0xfcfdfeff]);
}

#[test]
fn words_unpack_big_endian() {
    assert_eq!(
        words_to_be_bytes(&[0x01020304, 0xfffefdfc, 0]),
        vec![0x01, 0x02, 0x03, 0x04, 0xff, 0xfe, 0xfd, 0xfc, 0, 0, 0, 0]
    );
    assert_eq!(words_to_be_bytes(&[]), Vec::<u8>::new());
    let bytes: Vec<u8> = (0u8..48).collect();
    let words: [u32; 12] = words_from_be_bytes::<12>(&bytes);
    assert_eq!(words_to_be_bytes(&words), bytes);
}

#[test]
fn bytes_become_an_array() {
    let a: [u8; 4] = bytes_to_array::<4>(&[9, 8, 7, 6]);
    assert_eq!(a, [9, 8, 7, 6]);
}

#[test]
fn write_prefix_keeps_the_rest() {
    let mut out = [0xeeu8; 6];
    write_prefix(&mut out, &[1, 2, 3]);
    assert_eq!(out, [1, 2, 3, 0xee, 0xee, 0xee]);
    write_prefix(&mut out, &[]);
    assert_eq!(out, [1, 2, 3, 0xee, 0xee, 0xee]);
    write_prefix(&mut out, &[6, 5, 4, 3, 2, 1]);
    assert_eq!(out, [6, 5, 4, 3, 2, 1]);
}

#[test]
fn digest_output_as_bytes_is_the_memory_of_the_words() {
    let d = DigestOutput::new([0x01020304u32, 0x05060708]);
    let bytes = d.as_bytes();
    assert_eq!(bytes.len(), 8);
    let le = [4u8, 3, 2, 1, 8, 7, 6, 5];
    let be = [1u8, 2, 3, 4, 5, 6, 7, 8];
    assert!(bytes == le || bytes == be);
    let mut native = Vec::new();
    native.extend_from_slice(&0x01020304u32.to_ne_bytes());
    native.extend_from_slice(&0x05060708u32.to_ne_bytes());
    assert_eq!(bytes, &native[..]);
    assert_eq!(d.into_array(), [0x01020304u32, 0x05060708]);
    assert_eq!(d.value, [0x01020304u32, 0x05060708]);
}

#[test]
fn stated_lengths_are_checked() {
    assert_eq!(checked_len(0, 0, 1024), Ok(0));
    assert_eq!(checked_len(10, 10, 1024), Ok(10));
    assert_eq!(checked_len(1024, 2000, 1024), Ok(1024));
    assert_eq!(checked_len(11, 10, 1024), Err(DigestError::InvalidInputLength));
    assert_eq!(checked_len(1025, 2000, 1024), Err(DigestError::InvalidInputLength));
    assert_eq!(checked_len(65, 128, 64), Err(DigestError::InvalidInputLength));
    assert_eq!(checked_len(u32::MAX, 10, 1024), Err(DigestError::InvalidInputLength));
}

#[test]
fn the_payload_is_the_front_of_the_buffer() {
    let buffer = [1u8, 2, 3, 4, 5];
    assert_eq!(payload(&buffer, 3, 1024), Ok(&buffer[..3]));
    assert_eq!(payload(&buffer, 0, 1024), Ok(&buffer[..0]));
    assert_eq!(payload(&buffer, 5, 5), Ok(&buffer[..]));
    assert_eq!(payload(&buffer, 6, 1024), Err(DigestError::InvalidInputLength));
    assert_eq!(payload(&buffer, 4, 3), Err(DigestError::InvalidInputLength));
}

#[test]
fn mac_words_are_little_endian() {
    let mut mac = [0u8; 32];
    for (i, b) in mac.iter_mut().enumerate() {
        *b = i as u8;
    }
    let words = mac_words_256(&mac);
    assert_eq!(words[0], 0x03020100);
    assert_eq!(words[7], 0x1f1e1d1c);
    let mut expected = [0u32; 8];
    for (i, chunk) in mac.chunks_exact(4).enumerate() {
        expected[i] = u32::from_le_bytes([chunk[0], chunk[1], chunk[2], chunk[3]]);
    }
    assert_eq!(words, expected);
    assert_eq!(mac_words_384(&[0x11u8; 48]), [0x11111111u32; 12]);
    let mut mac = [0u8; 64];
    mac[60] = 0xaa;
    mac[63] = 0xbb;
    assert_eq!(mac_words_512(&mac)[15], 0xbb0000aa);
}

#[test]
fn algorithm_properties() {
    let all = [
        (DigestAlgorithm::Sha256, false, None, None, 8usize),
        (DigestAlgorithm::Sha384, false, None, None, 12),
        (DigestAlgorithm::Sha512, false, None, None, 16),
        (DigestAlgorithm::HmacSha256, true, Some(DigestAlgorithm::Sha256), Some(64usize), 8),
        (DigestAlgorithm::HmacSha384, true, Some(DigestAlgorithm::Sha384), Some(128), 12),
        (DigestAlgorithm::HmacSha512, true, Some(DigestAlgorithm::Sha512), Some(128), 16),
    ];
    for (alg, hmac, hash, max_key, words) in all {
        assert_eq!(alg.is_hmac(), hmac);
        assert_eq!(alg.underlying_hash(), hash);
        assert_eq!(alg.max_key_size(), max_key);
        assert_eq!(alg.output_words(), words);
        assert_eq!(alg.output_bytes(), 4 * words);
    }
    assert_eq!(SHA256_WORDS, 8);
    assert_eq!(SHA384_WORDS, 12);
    assert_eq!(SHA512_WORDS, 16);
    assert_eq!(HMAC_SHA256_MAX_KEY_SIZE, 64);
    assert_eq!(HMAC_SHA384_MAX_KEY_SIZE, 128);
    assert_eq!(HMAC_SHA512_MAX_KEY_SIZE, 128);
    assert_eq!(MAX_DATA_SIZE, 1024);
}

#[test]
fn key_lengths_that_an_algorithm_accepts() {
    assert!(DigestAlgorithm::HmacSha256.accepts_key_len(0));
    assert!(DigestAlgorithm::HmacSha256.accepts_key_len(64));
    assert!(!DigestAlgorithm::HmacSha256.accepts_key_len(65));
    assert!(DigestAlgorithm::HmacSha384.accepts_key_len(128));
    assert!(!DigestAlgorithm::HmacSha384.accepts_key_len(129));
    assert!(DigestAlgorithm::HmacSha512.accepts_key_len(128));
    assert!(!DigestAlgorithm::HmacSha512.accepts_key_len(129));
    assert!(DigestAlgorithm::Sha256.accepts_key_len(usize::MAX));
    assert!(DigestAlgorithm::Sha384.accepts_key_len(1000));
    assert!(DigestAlgorithm::Sha512.accepts_key_len(1000));
}

#[test]
fn digest_outputs_compare_by_their_words() {
    assert_eq!(DigestOutput::new([1u32, 2, 3]), DigestOutput::new([1u32, 2, 3]));
    assert_ne!(DigestOutput::new([1u32, 2, 3]), DigestOutput::new([1u32, 2, 4]));
    assert!(DigestOutput::new([0u32; 8]) == DigestOutput { value: [0u32; 8] });
}
