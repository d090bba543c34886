//! The key-derivation pipeline: stretch the password into a 32-byte master
//! key, expand it into the encryption and MAC subkeys, compute the master
//! password hash, and assemble the identity record.

use vstd::prelude::*;
use vstd::string::StringSliceAdditionalSpecFns;

use crate::material::DeriveError;
use crate::material::KdfType;
use crate::material::KeyMaterial;
use crate::material::Password;
use crate::material::VerificationHash;
use crate::primitives::argon2id;
use crate::primitives::hkdf_expand;
use crate::primitives::pbkdf2_sha256;
use crate::primitives::sha256;
use crate::primitives::spec_argon2id;
use crate::primitives::spec_hkdf_expand;
use crate::primitives::spec_pbkdf2_sha256;
use crate::primitives::spec_sha256;

verus! {

/// The HKDF context label for the encryption subkey: the bytes of `"enc"`.
pub open spec fn enc_label() -> Seq<u8> {
    seq![101u8, 110u8, 99u8]
}

/// The HKDF context label for the MAC subkey: the bytes of `"mac"`.
pub open spec fn mac_label() -> Seq<u8> {
    seq![109u8, 97u8, 99u8]
}

/// The value of an optional parameter once it has been checked to be
/// present; zero where it is absent.
pub open spec fn opt_or_zero(o: Option<u32>) -> u32 {
    match o {
        Some(v) => v,
        None => 0,
    }
}

/// Argon2id inputs on which stretching is guaranteed to succeed: the lane
/// count, pass count and memory cost lie in the bounds the algorithm accepts
/// on every target, and the password is addressable by the algorithm.
pub open spec fn argon2_inputs_accepted(pwd_len: nat, memory: u32, iterations: u32, parallelism: u32) -> bool {
    &&& 1 <= parallelism <= 0xFFFFFF
    &&& 1 <= iterations
    &&& 8 * (parallelism as int) <= (memory as int) * 1024
    &&& (memory as int) * 1024 <= 0x200000
    &&& pwd_len <= 0xFFFFFFFF
}

/// Argon2id inputs on which stretching is guaranteed to fail: a parameter
/// lies outside the algorithm's bounds, or the memory cost in KiB does not
/// fit the algorithm's 32-bit parameter.
pub open spec fn argon2_inputs_rejected(pwd_len: nat, memory: u32, iterations: u32, parallelism: u32) -> bool {
    ||| parallelism < 1
    ||| parallelism > 0xFFFFFF
    ||| iterations < 1
    ||| (memory as int) * 1024 < 8 * (parallelism as int)
    ||| (memory as int) * 1024 > 0xFFFFFFFF
    ||| pwd_len > 0xFFFFFFFF
}

/// The 32-byte stretched master key as a function of the inputs: PBKDF2 over
/// the raw email bytes as salt, or Argon2id over the SHA-256 digest of the
/// email as salt with the memory cost scaled from KiB blocks.
pub open spec fn spec_stretched_key(password: Seq<u8>, email_bytes: Seq<u8>, kdf: KdfType, iterations: u32, memory: u32, parallelism: u32) -> Seq<u8> {
    match kdf {
        KdfType::Pbkdf2 => spec_pbkdf2_sha256(password, email_bytes, iterations),
        KdfType::Argon2id => spec_argon2id(
            password,
            spec_sha256(email_bytes),
            ((memory as int) * 1024) as u32,
            iterations,
            parallelism,
        ),
    }
}

/// The 64-byte key material as a function of the stretched key: the `"enc"`
/// expansion first, the `"mac"` expansion second.
pub open spec fn spec_key_material(stretched: Seq<u8>) -> Seq<u8> {
    spec_hkdf_expand(stretched, enc_label()) + spec_hkdf_expand(stretched, mac_label())
}

/// The master password hash as a function of the stretched key and the
/// password: a single PBKDF2 round with the roles swapped — the stretched
/// key is the secret and the raw password is the salt.
pub open spec fn spec_master_hash(stretched: Seq<u8>, password: Seq<u8>) -> Seq<u8> {
    spec_pbkdf2_sha256(stretched, password, 1)
}

/// What a successfully derived identity holds, as a function of the inputs
/// alone.
pub open spec fn derived_from(id: Identity, email: Seq<char>, password: Seq<u8>, kdf: KdfType, iterations: u32, memory: Option<u32>, parallelism: Option<u32>) -> bool {
    let stretched = spec_stretched_key(
        password,
        vstd::utf8::encode_utf8(email),
        kdf,
        iterations,
        opt_or_zero(memory),
        opt_or_zero(parallelism),
    );
    &&& id.email@ == email
    &&& id.keys@ == spec_key_material(stretched)
    &&& id.keys@.len() == 64
    &&& id.keys@.subrange(0, 32) == spec_hkdf_expand(stretched, enc_label())
    &&& id.keys@.subrange(32, 64) == spec_hkdf_expand(stretched, mac_label())
    &&& id.master_password_hash@ == spec_master_hash(stretched, password)
    &&& iterations >= 1
    &&& (kdf == KdfType::Argon2id ==> memory.is_some() && parallelism.is_some())
}

/// Stage one: select the algorithm, validate its parameters, and stretch the
/// password into the 32-byte master key. The email is the salt: raw for
/// PBKDF2, hashed with SHA-256 for Argon2id.
pub fn stretch_key(password: &Password, email: &str, kdf: KdfType, iterations: u32, memory: Option<u32>, parallelism: Option<u32>) -> (r: Result<Vec<u8>, DeriveError>)
    ensures
        iterations == 0 ==> r == Err::<Vec<u8>, DeriveError>(DeriveError::ZeroIterations),
        (iterations >= 1 && kdf == KdfType::Argon2id && (memory.is_none() || parallelism.is_none()))
            ==> r == Err::<Vec<u8>, DeriveError>(DeriveError::MissingParameter),
        (iterations >= 1 && kdf == KdfType::Pbkdf2) ==> r.is_ok(),
        (iterations >= 1 && kdf == KdfType::Argon2id && memory.is_some() && parallelism.is_some()
            && argon2_inputs_accepted(password@.len(), opt_or_zero(memory), iterations, opt_or_zero(parallelism)))
            ==> r.is_ok(),
        (iterations >= 1 && kdf == KdfType::Argon2id && memory.is_some() && parallelism.is_some()
            && argon2_inputs_rejected(password@.len(), opt_or_zero(memory), iterations, opt_or_zero(parallelism)))
            ==> r == Err::<Vec<u8>, DeriveError>(DeriveError::StretchFailure),
        r matches Ok(k) ==> k@ == spec_stretched_key(
            password@,
            email.spec_bytes(),
            kdf,
            iterations,
            opt_or_zero(memory),
            opt_or_zero(parallelism),
        ) && k@.len() == 32 && iterations >= 1
            && (kdf == KdfType::Argon2id ==> memory.is_some() && parallelism.is_some()),
        r matches Err(e) ==> e != DeriveError::ExpansionFailure,
        r == Err::<Vec<u8>, DeriveError>(DeriveError::StretchFailure) ==> kdf == KdfType::Argon2id,
        r == Err::<Vec<u8>, DeriveError>(DeriveError::ZeroIterations) ==> iterations == 0,
        r == Err::<Vec<u8>, DeriveError>(DeriveError::MissingParameter)
            ==> kdf == KdfType::Argon2id && (memory.is_none() || parallelism.is_none()),
{
    if iterations == 0 {
        return Err(DeriveError::ZeroIterations);
    }
    match kdf {
        KdfType::Pbkdf2 => {
            match pbkdf2_sha256(password.bytes(), email.as_bytes(), iterations) {
                Some(k) => Ok(k),
                None => Err(DeriveError::StretchFailure),
            }
        },
        KdfType::Argon2id => {
            if memory.is_none() || parallelism.is_none() {
                return Err(DeriveError::MissingParameter);
            }
            let mem = memory.unwrap();
            let lanes = parallelism.unwrap();
            let mem_cost = match mem.checked_mul(1024) {
                Some(c) => c,
                None => {
                    return Err(DeriveError::StretchFailure);
                },
            };
            let salt = sha256(email.as_bytes());
            match argon2id(password.bytes(), salt.as_slice(), mem_cost, iterations, lanes) {
                Some(k) => Ok(k),
                None => Err(DeriveError::StretchFailure),
            }
        },
    }
}

/// Stage two: expand the stretched key, taken as the HKDF pseudorandom key
/// with no extract step, into the 64-byte key material — the `"enc"` label
/// first into bytes `[0, 32)`, then the `"mac"` label into bytes `[32, 64)`.
pub fn expand_keys(stretched: &[u8]) -> (r: Result<KeyMaterial, DeriveError>)
    requires
        stretched@.len() == 32,
    ensures
        r matches Ok(k) && k@ == spec_key_material(stretched@),
        spec_hkdf_expand(stretched@, enc_label()).len() == 32,
        spec_hkdf_expand(stretched@, mac_label()).len() == 32,
        r matches Ok(k) ==> k@.len() == 64
            && k@.subrange(0, 32) == spec_hkdf_expand(stretched@, enc_label())
            && k@.subrange(32, 64) == spec_hkdf_expand(stretched@, mac_label()),
{
    let mut enc_info: Vec<u8> = Vec::new();
    enc_info.push(101u8);
    enc_info.push(110u8);
    enc_info.push(99u8);
    proof {
        assert(enc_info@ =~= enc_label());
    }
    let enc = match hkdf_expand(stretched, enc_info.as_slice()) {
        Some(v) => v,
        None => {
            return Err(DeriveError::ExpansionFailure);
        },
    };
    let mut mac_info: Vec<u8> = Vec::new();
    mac_info.push(109u8);
    mac_info.push(97u8);
    mac_info.push(99u8);
    proof {
        assert(mac_info@ =~= mac_label());
    }
    let mac = match hkdf_expand(stretched, mac_info.as_slice()) {
        Some(v) => v,
        None => {
            return Err(DeriveError::ExpansionFailure);
        },
    };
    let keys = KeyMaterial::assemble(enc, mac);
    proof {
        assert(keys@.subrange(0, 32) =~= spec_hkdf_expand(stretched@, enc_label()));
        assert(keys@.subrange(32, 64) =~= spec_hkdf_expand(stretched@, mac_label()));
    }
    Ok(keys)
}

/// Stage three: the master password hash — one PBKDF2 round with the
/// stretched key as the secret and the raw password as the salt, so the
/// stored value rehashes the derived key rather than the password itself.
pub fn master_hash(stretched: &[u8], password: &Password) -> (r: Result<VerificationHash, DeriveError>)
    ensures
        r matches Ok(h) && h@ == spec_master_hash(stretched@, password@),
{
    match pbkdf2_sha256(stretched, password.bytes(), 1) {
        Some(v) => Ok(VerificationHash::from_bytes(v)),
        None => Err(DeriveError::StretchFailure),
    }
}

/// A user's derived cryptographic identity: the email it was derived for,
/// the 64-byte key material, and the master password hash.
pub struct Identity {
    pub email: String,
    pub keys: KeyMaterial,
    pub master_password_hash: VerificationHash,
}

impl Identity {
    /// The sole entry point of the pipeline: validates the parameters, runs
    /// the three stages in sequence, and assembles the record. Any stage
    /// failure aborts the call; no partial identity is ever returned.
    pub fn new(email: &str, password: &Password, kdf: KdfType, iterations: u32, memory: Option<u32>, parallelism: Option<u32>) -> (r: Result<Identity, DeriveError>)
        ensures
            iterations == 0 ==> r == Err::<Identity, DeriveError>(DeriveError::ZeroIterations),
            (iterations >= 1 && kdf == KdfType::Argon2id && (memory.is_none() || parallelism.is_none()))
                ==> r == Err::<Identity, DeriveError>(DeriveError::MissingParameter),
            (iterations >= 1 && kdf == KdfType::Pbkdf2) ==> r.is_ok(),
            (iterations >= 1 && kdf == KdfType::Argon2id && memory.is_some() && parallelism.is_some()
                && argon2_inputs_accepted(password@.len(), opt_or_zero(memory), iterations, opt_or_zero(parallelism)))
                ==> r.is_ok(),
            (iterations >= 1 && kdf == KdfType::Argon2id && memory.is_some() && parallelism.is_some()
                && argon2_inputs_rejected(password@.len(), opt_or_zero(memory), iterations, opt_or_zero(parallelism)))
                ==> r == Err::<Identity, DeriveError>(DeriveError::StretchFailure),
            r matches Ok(id) ==> derived_from(id, email@, password@, kdf, iterations, memory, parallelism),
            r matches Err(e) ==> e != DeriveError::ExpansionFailure,
            r == Err::<Identity, DeriveError>(DeriveError::StretchFailure) ==> kdf == KdfType::Argon2id,
            r == Err::<Identity, DeriveError>(DeriveError::ZeroIterations) ==> iterations == 0,
            r == Err::<Identity, DeriveError>(DeriveError::MissingParameter)
                ==> kdf == KdfType::Argon2id && (memory.is_none() || parallelism.is_none()),
    {
        let stretched = match stretch_key(password, email, kdf, iterations, memory, parallelism) {
            Ok(k) => k,
            Err(e) => {
                return Err(e);
            },
        };
        let keys = match expand_keys(stretched.as_slice()) {
            Ok(k) => k,
            Err(e) => {
                return Err(e);
            },
        };
        let master_password_hash = match master_hash(stretched.as_slice(), password) {
            Ok(h) => h,
            Err(e) => {
                return Err(e);
            },
        };
        Ok(Identity { email: email.to_owned(), keys, master_password_hash })
    }
}

/// Law: derivation is deterministic. Two successfully derived identities
/// with identical inputs — email, password, algorithm and parameters —
/// carry byte-identical key material and master password hashes.
pub proof fn lemma_derivation_deterministic(id1: Identity, id2: Identity, email: Seq<char>, password: Seq<u8>, kdf: KdfType, iterations: u32, memory: Option<u32>, parallelism: Option<u32>)
    requires
        derived_from(id1, email, password, kdf, iterations, memory, parallelism),
        derived_from(id2, email, password, kdf, iterations, memory, parallelism),
    ensures
        id1.email@ == id2.email@,
        id1.keys@ == id2.keys@,
        id1.master_password_hash@ == id2.master_password_hash@,
{
}

} // verus!
