use vstd::prelude::*;
use vstd::slice::slice_subrange;
use argon2::password_hash::SaltString;
use argon2::{Argon2, PasswordHasher};
use crate::cipher::{wipe, KEY_LEN};
use crate::container::SALT_LEN;
use crate::error::CryptError;

verus! {

/// The ways the password hash can fail to return bytes.
#[derive(Clone, Copy, Debug, PartialEq, Eq, Structural)]
pub enum HashFailure {
    /// The salt was not accepted for encoding.
    SaltEncoding,
    /// The hash function returned an error.
    Hashing,
    /// The hash function returned a record without output.
    NoOutput,
}

/// What Argon2, with its default parameters, returns for a password and a
/// salt: the raw hash output, or the step that failed.
pub uninterp spec fn argon2_hash(password: Seq<u8>, salt: Seq<u8>) -> Result<Seq<u8>, HashFailure>;

/// The bytes held by the outcome of a hash.
pub open spec fn hashed(r: Result<Vec<u8>, HashFailure>) -> Result<Seq<u8>, HashFailure> {
    match r {
        Ok(v) => Ok(v@),
        Err(e) => Err(e),
    }
}

/// The bytes held by the outcome of an operation of this library.
pub open spec fn outcome(r: Result<Vec<u8>, CryptError>) -> Result<Seq<u8>, CryptError> {
    match r {
        Ok(v) => Ok(v@),
        Err(e) => Err(e),
    }
}

/// The key that a hash outcome stands for: its first 32 bytes, where it has
/// that many; an error otherwise, and for each failure of the hash its own.
pub open spec fn key_of_hash(hash: Result<Seq<u8>, HashFailure>) -> Result<Seq<u8>, CryptError> {
    match hash {
        Err(HashFailure::SaltEncoding) => Err(CryptError::SaltEncoding),
        Err(HashFailure::Hashing) => Err(CryptError::KeyDerivation),
        Err(HashFailure::NoOutput) => Err(CryptError::NoHashOutput),
        Ok(bytes) => if bytes.len() < KEY_LEN {
            Err(CryptError::KeyTooShort)
        } else {
            Ok(bytes.subrange(0, KEY_LEN as int))
        },
    }
}

/// The key derived from a password and a salt.
pub open spec fn derive_spec(password: Seq<u8>, salt: Seq<u8>) -> Result<Seq<u8>, CryptError> {
    key_of_hash(argon2_hash(password, salt))
}

/// Calls `SaltString::encode_b64` of the crate password-hash, then
/// `Argon2::default().hash_password` of the crate argon2, and copies the bytes
/// of the record's output. Trusted, not proved: the outcome is the named hash
/// of password and salt, so equal arguments give equal outcomes.
#[verifier::external_body]
fn hash_password(password: &[u8], salt: &[u8]) -> (r: Result<Vec<u8>, HashFailure>)
    requires
        salt@.len() == SALT_LEN,
    ensures
        hashed(r) == argon2_hash(password@, salt@),
{
    let salt_string = match SaltString::encode_b64(salt) {
        Ok(s) => s,
        Err(_) => return Err(HashFailure::SaltEncoding),
    };
    match Argon2::default().hash_password(password, &salt_string) {
        Ok(record) => match record.hash {
            Some(output) => Ok(output.as_bytes().to_vec()),
            None => Err(HashFailure::NoOutput),
        },
        Err(_) => Err(HashFailure::Hashing),
    }
}

/// Turns the outcome of the password hash into a key: an output of fewer than
/// 32 bytes is refused, a longer one is cut to 32, and each failure of the
/// hash becomes an error of its own. The hash output is wiped once the key is
/// taken from it.
pub fn key_from_hash(hash: Result<Vec<u8>, HashFailure>) -> (r: Result<Vec<u8>, CryptError>)
    ensures
        outcome(r) == key_of_hash(hashed(hash)),
        r matches Ok(key) ==> key@.len() == KEY_LEN,
{
    match hash {
        Err(HashFailure::SaltEncoding) => Err(CryptError::SaltEncoding),
        Err(HashFailure::Hashing) => Err(CryptError::KeyDerivation),
        Err(HashFailure::NoOutput) => Err(CryptError::NoHashOutput),
        Ok(bytes) => {
            let mut bytes = bytes;
            if bytes.len() < KEY_LEN {
                wipe(&mut bytes);
                Err(CryptError::KeyTooShort)
            } else {
                let mut key: Vec<u8> = Vec::new();
                key.extend_from_slice(slice_subrange(bytes.as_slice(), 0, KEY_LEN));
                assert(key@ =~= bytes@.subrange(0, KEY_LEN as int));
                wipe(&mut bytes);
                Ok(key)
            }
        },
    }
}

/// Derives the 32-byte key for a password and a 16-byte salt. The same
/// password and salt always give the same outcome.
pub fn derive_key(password: &[u8], salt: &[u8]) -> (r: Result<Vec<u8>, CryptError>)
    requires
        salt@.len() == SALT_LEN,
    ensures
        outcome(r) == derive_spec(password@, salt@),
        r matches Ok(key) ==> key@.len() == KEY_LEN,
{
    key_from_hash(hash_password(password, salt))
}

} // verus!
