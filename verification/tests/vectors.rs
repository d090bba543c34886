//! Reference vectors for the stretching stage, and cross-checks of every
//! pipeline stage against direct calls into the underlying crates.

use identity_kdf::identity::{expand_keys, master_hash, stretch_key};
use identity_kdf::{KdfType, Password};

use sha2::Digest;

/// RFC 7914 PBKDF2-HMAC-SHA-256 test vector: P = "passwd", S = "salt",
/// c = 1, first 32 bytes of the derived key.
#[test]
fn pbkdf2_rfc_vector_one_round() {
    let expected: [u8; 32] = [
        0x55, 0xac, 0x04, 0x6e, 0x56, 0xe3, 0x08, 0x9f, 0xec, 0x16, 0x91, 0xc2, 0x25, 0x44,
        0xb6, 0x05, 0xf9, 0x41, 0x85, 0x21, 0x6d, 0xde, 0x04, 0x65, 0xe6, 0x8b, 0x9d, 0x57,
        0xc2, 0x0d, 0xac, 0xbc,
    ];
    let password = Password::new(b"passwd".to_vec());
    let key = stretch_key(&password, "salt", KdfType::Pbkdf2, 1, None, None).unwrap();
    assert_eq!(key.as_slice(), &expected[..]);
}

/// RFC 7914 PBKDF2-HMAC-SHA-256 test vector: P = "Password", S = "NaCl",
/// c = 80000, first 32 bytes of the derived key.
#[test]
fn pbkdf2_rfc_vector_many_rounds() {
    let expected: [u8; 32] = [
        0x4d, 0xdc, 0xd8, 0xf6, 0x0b, 0x98, 0xbe, 0x21, 0x83, 0x0c, 0xee, 0x5e, 0xf2, 0x27,
        0x01, 0xf9, 0x64, 0x1a, 0x44, 0x18, 0xd0, 0x4c, 0x04, 0x14, 0xae, 0xff, 0x08, 0x87,
        0x6b, 0x34, 0xab, 0x56,
    ];
    let password = Password::new(b"Password".to_vec());
    let key = stretch_key(&password, "NaCl", KdfType::Pbkdf2, 80000, None, None).unwrap();
    assert_eq!(key.as_slice(), &expected[..]);
}

/// The PBKDF2 stretch must match a direct call into the pbkdf2 crate with
/// the email bytes as the salt.
#[test]
fn pbkdf2_stretch_matches_direct_call() {
    let password = Password::new(b"secret master password".to_vec());
    let key = stretch_key(&password, "user@host.example", KdfType::Pbkdf2, 1200, None, None)
        .unwrap();

    let mut expected = [0u8; 32];
    pbkdf2::pbkdf2::<hmac::Hmac<sha2::Sha256>>(
        b"secret master password",
        b"user@host.example",
        1200,
        &mut expected,
    )
    .unwrap();
    assert_eq!(key.as_slice(), &expected[..]);
}

/// The Argon2id stretch must match a direct call into the argon2 crate with
/// the SHA-256 digest of the email as the salt.
#[test]
fn argon2id_stretch_matches_direct_call() {
    let password = Password::new(b"secret master password".to_vec());
    let key = stretch_key(
        &password,
        "user@host.example",
        KdfType::Argon2id,
        2,
        Some(1),
        Some(1),
    )
    .unwrap();

    let salt = sha2::Sha256::digest(b"user@host.example");
    let config = argon2::Config {
        ad: &[],
        hash_length: 32,
        lanes: 1,
        mem_cost: 1024,
        secret: &[],
        thread_mode: argon2::ThreadMode::Parallel,
        time_cost: 2,
        variant: argon2::Variant::Argon2id,
        version: argon2::Version::Version13,
    };
    let expected = argon2::hash_raw(b"secret master password", &salt[..], &config).unwrap();
    assert_eq!(key.as_slice(), expected.as_slice());
}

/// The expansion stage must match direct HKDF-SHA-256 expansions of the
/// stretched key under the labels "enc" and "mac".
#[test]
fn expand_matches_direct_hkdf() {
    let stretched: Vec<u8> = (0u8..32u8).collect();
    let keys = expand_keys(stretched.as_slice()).unwrap();

    let hk = hkdf::Hkdf::<sha2::Sha256>::from_prk(stretched.as_slice()).unwrap();
    let mut enc = [0u8; 32];
    hk.expand(b"enc", &mut enc).unwrap();
    let mut mac = [0u8; 32];
    hk.expand(b"mac", &mut mac).unwrap();

    assert_eq!(keys.enc_key(), &enc[..]);
    assert_eq!(keys.mac_key(), &mac[..]);
    let mut whole = enc.to_vec();
    whole.extend_from_slice(&mac);
    assert_eq!(keys.as_bytes(), whole.as_slice());
}

/// The master password hash must be a single PBKDF2 round with the roles
/// swapped: the stretched key as the secret, the password as the salt.
#[test]
fn master_hash_matches_direct_swapped_pbkdf2() {
    let stretched: Vec<u8> = (100u8..132u8).collect();
    let password = Password::new(b"a master password".to_vec());
    let hash = master_hash(stretched.as_slice(), &password).unwrap();

    let mut expected = [0u8; 32];
    pbkdf2::pbkdf2::<hmac::Hmac<sha2::Sha256>>(
        stretched.as_slice(),
        b"a master password",
        1,
        &mut expected,
    )
    .unwrap();
    assert_eq!(hash.as_bytes(), &expected[..]);
}
