//! Derivation of a user's cryptographic identity from an email and a master
//! password: a stretched master key (PBKDF2 or Argon2id), a pair of
//! HKDF-expanded subkeys for encryption and authentication, and a
//! locally-verifiable master password hash.

pub mod identity;
pub mod material;
pub mod primitives;

pub use crate::identity::Identity;
pub use crate::material::DeriveError;
pub use crate::material::KdfType;
pub use crate::material::KeyMaterial;
pub use crate::material::Password;
pub use crate::material::VerificationHash;
