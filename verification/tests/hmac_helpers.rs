use openprot_digest::error::{CryptoError, HmacError};
use openprot_digest::rustcrypto::{
    finalize_hmac_sha256, finalize_hmac_sha384, finalize_hmac_sha512, hmac_sha256_oneshot,
    hmac_sha384_oneshot, hmac_sha512_oneshot, init_hmac_sha256, init_hmac_sha384,
    init_hmac_sha512, update_hmac_sha256, update_hmac_sha384, update_hmac_sha512,
    RustCryptoController, SecureOwnedKey, MAX_KEY_SIZE,
};

fn hex(bytes: &[u8]) -> String {
    let mut s = String::new();
    for b in bytes {
        s.push_str(&format!("{:02x}", b));
    }
    s
}

#[test]
fn test_hmac_sha256_oneshot() {
    let controller = RustCryptoController::new();
    let key = b"test key";
    let data = b"test data";

    let result = hmac_sha256_oneshot(controller, key, data);
    assert!(result.is_ok());

    let (mac, _controller) = result.unwrap();
    assert_eq!(mac.len(), 32);
    assert_ne!(mac, [0u8; 32]); // Should contain actual MAC data
}

#[test]
fn test_hmac_sha384_oneshot() {
    let controller = RustCryptoController::new();
    let key = b"test key";
    let data = b"test data";

    let result = hmac_sha384_oneshot(controller, key, data);
    assert!(result.is_ok());

    let (mac, _controller) = result.unwrap();
    assert_eq!(mac.len(), 48);
    assert_ne!(mac, [0u8; 48]); // Should contain actual MAC data
}

#[test]
fn test_hmac_sha512_oneshot() {
    let controller = RustCryptoController::new();
    let key = b"test key";
    let data = b"test data";

    let result = hmac_sha512_oneshot(controller, key, data);
    assert!(result.is_ok());

    let (mac, _controller) = result.unwrap();
    assert_eq!(mac.len(), 64);
    assert_ne!(mac, [0u8; 64]); // Should contain actual MAC data
}

#[test]
fn test_streaming_hmac_sha256() {
    let controller = RustCryptoController::new();
    let key = b"test key";

    let context = init_hmac_sha256(controller, key).unwrap();
    let context = update_hmac_sha256(context, b"test ").unwrap();
    let context = update_hmac_sha256(context, b"data").unwrap();
    let (mac, _controller) = finalize_hmac_sha256(context).unwrap();

    assert_eq!(mac.len(), 32);
    assert_ne!(mac, [0u8; 32]); // Should contain actual MAC data
}

#[test]
fn test_invalid_key_length() {
    let controller = RustCryptoController::new();
    let oversized_key = [0u8; 200]; // Too large for the controller's key store

    let result = init_hmac_sha256(controller, &oversized_key);
    assert!(result.is_err());
    assert_eq!(result.unwrap_err(), HmacError::InvalidKeyLength);
}

#[test]
fn hmac_sha256_known_answer() {
    let (mac, _) = hmac_sha256_oneshot(
        RustCryptoController::new(),
        b"Jefe",
        b"what do ya want for nothing?",
    )
    .unwrap();
    assert_eq!(
        hex(&mac),
        "5bdcc146bf60754e6a042426089575c75a003f089d2739839dec58b964ec3843"
    );
}

#[test]
fn hmac_sha384_known_answer() {
    let (mac, _) = hmac_sha384_oneshot(
        RustCryptoController::new(),
        b"Jefe",
        b"what do ya want for nothing?",
    )
    .unwrap();
    assert_eq!(
        hex(&mac),
        "af45d2e376484031617f78d2b58a6b1b9c7ef464f5a01b47e42ec3736322445e8e2240ca5e69e2c78b3239ecfab21649"
    );
}

#[test]
fn hmac_sha512_known_answer() {
    let (mac, _) = hmac_sha512_oneshot(
        RustCryptoController::new(),
        b"Jefe",
        b"what do ya want for nothing?",
    )
    .unwrap();
    assert_eq!(
        hex(&mac),
        "164b7a7bfcf819e2e395fbe73b56e0a387bd64222e831fd610270cd7ea2505549758bf75c05a994a6d034f65f8f0e6fdcaeab1a34d4a6b4b636e070a38bce737"
    );
}

#[test]
fn streaming_equals_oneshot_for_every_width() {
    let key = b"test key";
    let (one256, _) = hmac_sha256_oneshot(RustCryptoController::new(), key, b"test data").unwrap();
    let ctx = init_hmac_sha256(RustCryptoController::new(), key).unwrap();
    let ctx = update_hmac_sha256(ctx, b"test ").unwrap();
    let ctx = update_hmac_sha256(ctx, b"data").unwrap();
    assert_eq!(finalize_hmac_sha256(ctx).unwrap().0, one256);

    let (one384, _) = hmac_sha384_oneshot(RustCryptoController::new(), key, b"test data").unwrap();
    let ctx = init_hmac_sha384(RustCryptoController::new(), key).unwrap();
    let ctx = update_hmac_sha384(ctx, b"te").unwrap();
    let ctx = update_hmac_sha384(ctx, b"st data").unwrap();
    assert_eq!(finalize_hmac_sha384(ctx).unwrap().0, one384);

    let (one512, _) = hmac_sha512_oneshot(RustCryptoController::new(), key, b"test data").unwrap();
    let ctx = init_hmac_sha512(RustCryptoController::new(), key).unwrap();
    let ctx = update_hmac_sha512(ctx, b"").unwrap();
    let ctx = update_hmac_sha512(ctx, b"test data").unwrap();
    assert_eq!(finalize_hmac_sha512(ctx).unwrap().0, one512);
}

#[test]
fn update_changes_the_tag() {
    let key = b"k";
    let ctx = init_hmac_sha256(RustCryptoController::new(), key).unwrap();
    let (empty, _) = finalize_hmac_sha256(ctx).unwrap();
    let ctx = init_hmac_sha256(RustCryptoController::new(), key).unwrap();
    let ctx = update_hmac_sha256(ctx, b"x").unwrap();
    let (one, _) = finalize_hmac_sha256(ctx).unwrap();
    assert_ne!(empty, one);
}

#[test]
fn the_key_matters() {
    let (a, _) = hmac_sha256_oneshot(RustCryptoController::new(), b"key a", b"data").unwrap();
    let (b, _) = hmac_sha256_oneshot(RustCryptoController::new(), b"key b", b"data").unwrap();
    assert_ne!(a, b);
}

#[test]
fn helper_key_limit_is_the_controllers() {
    let at_limit = [7u8; 128];
    let over = [7u8; 129];
    assert_eq!(MAX_KEY_SIZE, 128);
    assert!(init_hmac_sha256(RustCryptoController::new(), &at_limit).is_ok());
    assert!(init_hmac_sha384(RustCryptoController::new(), &at_limit).is_ok());
    assert!(init_hmac_sha512(RustCryptoController::new(), &at_limit).is_ok());
    assert_eq!(
        init_hmac_sha256(RustCryptoController::new(), &over).err(),
        Some(HmacError::InvalidKeyLength)
    );
    assert_eq!(
        init_hmac_sha384(RustCryptoController::new(), &over).err(),
        Some(HmacError::InvalidKeyLength)
    );
    assert_eq!(
        init_hmac_sha512(RustCryptoController::new(), &over).err(),
        Some(HmacError::InvalidKeyLength)
    );
    assert_eq!(
        hmac_sha256_oneshot(RustCryptoController::new(), &over, b"x").err(),
        Some(HmacError::InvalidKeyLength)
    );
    assert_eq!(
        hmac_sha384_oneshot(RustCryptoController::new(), &over, b"x").err(),
        Some(HmacError::InvalidKeyLength)
    );
    assert_eq!(
        hmac_sha512_oneshot(RustCryptoController::new(), &over, b"x").err(),
        Some(HmacError::InvalidKeyLength)
    );
}

#[test]
fn secure_key_keeps_the_bytes() {
    let key = SecureOwnedKey::new(b"abc").unwrap();
    assert_eq!(key.as_bytes(), b"abc");
    assert!(SecureOwnedKey::new(&[0u8; 128]).is_ok());
    assert_eq!(
        SecureOwnedKey::new(&[0u8; 129]).err(),
        Some(CryptoError::InvalidKeyLength)
    );
}
