//! Trusted bindings to the cryptographic primitives of outside crates.
//!
//! Each executable function here is `external_body`: its body makes one
//! outside call, its contract names the result, and the rest of the crate is
//! verified against these contracts alone.

use vstd::prelude::*;

use sha2::Digest;

verus! {

/// The 32-byte SHA-256 digest of a byte sequence.
pub uninterp spec fn spec_sha256(data: Seq<u8>) -> Seq<u8>;

/// The 32-byte PBKDF2-HMAC-SHA-256 output for a secret, a salt and a round
/// count.
pub uninterp spec fn spec_pbkdf2_sha256(secret: Seq<u8>, salt: Seq<u8>, rounds: u32) -> Seq<u8>;

/// The 32-byte Argon2id output (version 1.3, empty secret key and associated
/// data) for a password, a salt, a memory cost in KiB, a pass count and a
/// lane count.
pub uninterp spec fn spec_argon2id(password: Seq<u8>, salt: Seq<u8>, mem_cost: u32, time_cost: u32, lanes: u32) -> Seq<u8>;

/// The 32-byte HKDF-SHA-256 expansion of a pseudorandom key under a context
/// label.
pub uninterp spec fn spec_hkdf_expand(prk: Seq<u8>, info: Seq<u8>) -> Seq<u8>;

/// Relies on `sha2::Sha256::digest`: returns the 32-byte SHA-256 digest of
/// `data`, a function of `data` alone.
#[verifier::external_body]
pub(crate) fn sha256(data: &[u8]) -> (r: Vec<u8>)
    ensures
        r@ == spec_sha256(data@),
        r@.len() == 32,
{
    sha2::Sha256::digest(data).to_vec()
}

/// Relies on `pbkdf2::pbkdf2` with `Hmac<Sha256>` as the PRF: fills a 32-byte
/// buffer with the PBKDF2 output, a function of the arguments alone. Its only
/// error is a failed PRF key setup, and HMAC accepts keys of any length (its
/// own source notes that this error cannot happen), so the call always
/// succeeds.
#[verifier::external_body]
pub(crate) fn pbkdf2_sha256(secret: &[u8], salt: &[u8], rounds: u32) -> (r: Option<Vec<u8>>)
    ensures
        r matches Some(v) ==> v@ == spec_pbkdf2_sha256(secret@, salt@, rounds) && v@.len() == 32,
        r.is_some(),
{
    let mut out = vec![0u8; 32];
    match pbkdf2::pbkdf2::<hmac::Hmac<sha2::Sha256>>(secret, salt, rounds, &mut out) {
        Ok(()) => Some(out),
        Err(_) => None,
    }
}

/// Relies on `argon2::hash_raw` of the rust-argon2 crate, called with variant
/// Argon2id, version 1.3, empty secret key and associated data, and a 32-byte
/// hash length: the output is a function of the remaining arguments alone.
/// The crate validates its parameters up front: it rejects a lane count
/// outside `1..=0xFFFFFF`, a pass count of zero, a memory cost under eight
/// blocks per lane, a salt shorter than 8 bytes, and a password or salt
/// longer than `u32::MAX` bytes; it accepts everything else up to a memory
/// ceiling that is `0x200000` KiB on 32-bit targets and `u32::MAX` KiB
/// otherwise, so between those two bounds the contract leaves the outcome
/// open.
#[verifier::external_body]
pub(crate) fn argon2id(password: &[u8], salt: &[u8], mem_cost: u32, time_cost: u32, lanes: u32) -> (r: Option<Vec<u8>>)
    ensures
        r matches Some(v) ==> v@ == spec_argon2id(password@, salt@, mem_cost, time_cost, lanes) && v@.len() == 32,
        (1 <= lanes <= 0xFFFFFF && 1 <= time_cost && 8 * (lanes as int) <= mem_cost as int
            && mem_cost <= 0x200000 && 8 <= salt@.len() <= 0xFFFFFFFF
            && password@.len() <= 0xFFFFFFFF) ==> r.is_some(),
        (lanes < 1 || lanes > 0xFFFFFF || time_cost < 1 || (mem_cost as int) < 8 * (lanes as int)
            || salt@.len() < 8 || salt@.len() > 0xFFFFFFFF
            || password@.len() > 0xFFFFFFFF) ==> r.is_none(),
        r.is_none() ==> (lanes < 1 || lanes > 0xFFFFFF || time_cost < 1
            || (mem_cost as int) < 8 * (lanes as int) || mem_cost > 0x200000
            || salt@.len() < 8 || salt@.len() > 0xFFFFFFFF || password@.len() > 0xFFFFFFFF),
{
    let config = argon2::Config {
        ad: &[],
        hash_length: 32,
        lanes,
        mem_cost,
        secret: &[],
        thread_mode: argon2::ThreadMode::Parallel,
        time_cost,
        variant: argon2::Variant::Argon2id,
        version: argon2::Version::Version13,
    };
    argon2::hash_raw(password, salt, &config).ok()
}

/// Relies on `hkdf::Hkdf::<Sha256>::from_prk` and `Hkdf::expand`: returns the
/// 32-byte HKDF-SHA-256 expansion of `prk` under the context label `info`, a
/// function of the two arguments alone. `from_prk` fails exactly when the
/// pseudorandom key is shorter than 32 bytes, and `expand` into 32 bytes is
/// always within the HKDF output bound, so a 32-byte key always succeeds.
#[verifier::external_body]
pub(crate) fn hkdf_expand(prk: &[u8], info: &[u8]) -> (r: Option<Vec<u8>>)
    ensures
        r matches Some(v) ==> v@ == spec_hkdf_expand(prk@, info@) && v@.len() == 32,
        prk@.len() >= 32 ==> r.is_some(),
{
    let hk = match hkdf::Hkdf::<sha2::Sha256>::from_prk(prk) {
        Ok(h) => h,
        Err(_) => return None,
    };
    let mut out = vec![0u8; 32];
    match hk.expand(info, &mut out) {
        Ok(()) => Some(out),
        Err(_) => None,
    }
}

} // verus!
