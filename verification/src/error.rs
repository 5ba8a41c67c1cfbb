use vstd::prelude::*;

verus! {

/// Why a protect or reveal run over bytes failed.
#[derive(Clone, Copy, Debug, PartialEq, Eq, Structural)]
pub enum CryptError {
    /// A cipher mode other than the authenticated one was asked for.
    UnsupportedMode,
    /// The operating system's random source gave no bytes.
    RandomSource,
    /// The salt could not be put into the form the password hash takes.
    SaltEncoding,
    /// The password hash failed.
    KeyDerivation,
    /// The password hash returned no output.
    NoHashOutput,
    /// The password hash returned fewer bytes than a key needs.
    KeyTooShort,
    /// The cipher refused to encrypt.
    Encryption,
    /// The container is shorter than its fixed header.
    TooShort,
    /// The tag did not verify: wrong password or corrupted data.
    Authentication,
}

impl CryptError {
    /// The text that stands for each error.
    pub open spec fn message_spec(self) -> Seq<char> {
        match self {
            CryptError::UnsupportedMode => "Only AES-GCM is implemented"@,
            CryptError::RandomSource => "Random source failed"@,
            CryptError::SaltEncoding => "Salt encode error"@,
            CryptError::KeyDerivation => "Key derivation failed"@,
            CryptError::NoHashOutput => "No hash output"@,
            CryptError::KeyTooShort => "Derived key too short"@,
            CryptError::Encryption => "Encryption failed"@,
            CryptError::TooShort => "Input file too short"@,
            CryptError::Authentication => "Decryption failed (wrong password or corrupted data)"@,
        }
    }

    /// The message shown to the user for this error. A failed authentication
    /// names both possible causes and does not tell them apart.
    pub fn message(&self) -> (text: &'static str)
        ensures
            text@ == self.message_spec(),
    {
        match self {
            CryptError::UnsupportedMode => "Only AES-GCM is implemented",
            CryptError::RandomSource => "Random source failed",
            CryptError::SaltEncoding => "Salt encode error",
            CryptError::KeyDerivation => "Key derivation failed",
            CryptError::NoHashOutput => "No hash output",
            CryptError::KeyTooShort => "Derived key too short",
            CryptError::Encryption => "Encryption failed",
            CryptError::TooShort => "Input file too short",
            CryptError::Authentication => "Decryption failed (wrong password or corrupted data)",
        }
    }
}

} // verus!
