//! The data the pipeline works on: the choice of stretching algorithm, the
//! error taxonomy, and the secret byte buffers with their length invariants.

use vstd::prelude::*;
use vstd::slice::slice_subrange;

verus! {

/// The two interchangeable key-stretching algorithms.
#[derive(Clone, Copy, Debug, PartialEq, Eq, Structural)]
pub enum KdfType {
    Pbkdf2,
    Argon2id,
}

/// Why a derivation failed. Every failure is fatal to the single call and
/// deterministic in its inputs.
#[derive(Clone, Copy, Debug, PartialEq, Eq, Structural)]
pub enum DeriveError {
    /// The iteration count was zero.
    ZeroIterations,
    /// Argon2id was selected without its memory or parallelism parameter.
    MissingParameter,
    /// The stretching algorithm rejected its inputs.
    StretchFailure,
    /// The key expansion received a malformed pseudorandom key.
    ExpansionFailure,
}

/// A caller-owned master password: an opaque secret byte sequence, borrowed
/// by the pipeline for the duration of a call and never retained.
pub struct Password {
    bytes: Vec<u8>,
}

impl View for Password {
    type V = Seq<u8>;

    closed spec fn view(&self) -> Seq<u8> {
        self.bytes@
    }
}

impl Password {
    pub fn new(bytes: Vec<u8>) -> (r: Password)
        ensures
            r@ == bytes@,
    {
        Password { bytes }
    }

    pub fn bytes(&self) -> (r: &[u8])
        ensures
            r@ == self@,
    {
        self.bytes.as_slice()
    }
}

/// A 64-byte secret key buffer: the encryption key occupies bytes `[0, 32)`
/// and the MAC key bytes `[32, 64)`.
pub struct KeyMaterial {
    bytes: Vec<u8>,
}

impl View for KeyMaterial {
    type V = Seq<u8>;

    closed spec fn view(&self) -> Seq<u8> {
        self.bytes@
    }
}

impl KeyMaterial {
    #[verifier::type_invariant]
    spec fn sixty_four_bytes(&self) -> bool {
        self.bytes@.len() == 64
    }

    /// Joins the two 32-byte subkeys into the single 64-byte buffer,
    /// encryption key first.
    pub(crate) fn assemble(enc: Vec<u8>, mac: Vec<u8>) -> (r: KeyMaterial)
        requires
            enc@.len() == 32,
            mac@.len() == 32,
        ensures
            r@ == enc@ + mac@,
    {
        let mut bytes = enc;
        let mut tail = mac;
        bytes.append(&mut tail);
        KeyMaterial { bytes }
    }

    /// The encryption half, bytes `[0, 32)`.
    pub fn enc_key(&self) -> (r: &[u8])
        ensures
            self@.len() == 64,
            r@ == self@.subrange(0, 32),
    {
        proof {
            use_type_invariant(self);
        }
        slice_subrange(self.bytes.as_slice(), 0, 32)
    }

    /// The MAC half, bytes `[32, 64)`.
    pub fn mac_key(&self) -> (r: &[u8])
        ensures
            self@.len() == 64,
            r@ == self@.subrange(32, 64),
    {
        proof {
            use_type_invariant(self);
        }
        slice_subrange(self.bytes.as_slice(), 32, 64)
    }

    /// The whole 64-byte buffer.
    pub fn as_bytes(&self) -> (r: &[u8])
        ensures
            self@.len() == 64,
            r@ == self@,
    {
        proof {
            use_type_invariant(self);
        }
        self.bytes.as_slice()
    }
}

/// A 32-byte value that confirms the master password without storing it;
/// never used as an encryption key.
pub struct VerificationHash {
    bytes: Vec<u8>,
}

impl View for VerificationHash {
    type V = Seq<u8>;

    closed spec fn view(&self) -> Seq<u8> {
        self.bytes@
    }
}

impl VerificationHash {
    #[verifier::type_invariant]
    spec fn thirty_two_bytes(&self) -> bool {
        self.bytes@.len() == 32
    }

    pub(crate) fn from_bytes(bytes: Vec<u8>) -> (r: VerificationHash)
        requires
            bytes@.len() == 32,
        ensures
            r@ == bytes@,
    {
        VerificationHash { bytes }
    }

    /// The 32 hash bytes.
    pub fn as_bytes(&self) -> (r: &[u8])
        ensures
            self@.len() == 32,
            r@ == self@,
    {
        proof {
            use_type_invariant(self);
        }
        self.bytes.as_slice()
    }
}

} // verus!
