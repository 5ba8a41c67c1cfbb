use vstd::prelude::*;
use aes_gcm::aead::{Aead, KeyInit};
use aes_gcm::{Aes256Gcm, Key, Nonce};
use zeroize::Zeroize;
use crate::container::NONCE_LEN;

verus! {

/// Length of a cipher key.
pub const KEY_LEN: usize = 32;

/// Length of the authentication tag that ends every sealed buffer.
pub const TAG_LEN: usize = 16;

/// The longest plaintext the cipher seals: 2^36 bytes.
pub const MAX_PLAINTEXT_LEN: u64 = 0x10_0000_0000;

/// What AES-256-GCM makes of a plaintext under a key and a nonce, with no
/// associated data: the ciphertext followed by its tag, or nothing where the
/// cipher refuses.
pub uninterp spec fn aes256_gcm_seal(key: Seq<u8>, nonce: Seq<u8>, plaintext: Seq<u8>) -> Option<
    Seq<u8>,
>;

/// What AES-256-GCM recovers from a sealed buffer under a key and a nonce, with
/// no associated data: the plaintext, or nothing where the tag does not verify.
pub uninterp spec fn aes256_gcm_open(key: Seq<u8>, nonce: Seq<u8>, sealed: Seq<u8>) -> Option<
    Seq<u8>,
>;

/// The bytes held by an optional buffer.
pub open spec fn held(r: Option<Vec<u8>>) -> Option<Seq<u8>> {
    match r {
        Some(v) => Some(v@),
        None => None,
    }
}

/// Two sealed buffers of one length that agree in everything before the tag
/// and differ in the tag.
pub open spec fn differs_in_tag_only(a: Seq<u8>, b: Seq<u8>) -> bool {
    &&& a.len() == b.len()
    &&& a.len() >= TAG_LEN
    &&& a.subrange(0, a.len() - TAG_LEN) == b.subrange(0, b.len() - TAG_LEN)
    &&& a != b
}

/// Calls `Aes256Gcm::encrypt` of the crate aes-gcm with a key and nonce built
/// by `from_slice`. Trusted, not proved: the result is the named sealing of
/// the arguments; the cipher refuses exactly the plaintexts longer than 2^36
/// bytes; a sealed buffer is the plaintext's length plus the tag; opening it
/// under the same key and nonce gives the plaintext back; and no buffer that
/// differs from it in the tag alone opens under that key and nonce, since the
/// cipher computes the tag anew from key, nonce and ciphertext and compares
/// all of it.
#[verifier::external_body]
pub(crate) fn seal(key: &[u8], nonce: &[u8], plaintext: &[u8]) -> (r: Option<Vec<u8>>)
    requires
        key@.len() == KEY_LEN,
        nonce@.len() == NONCE_LEN,
        plaintext@.len() + TAG_LEN <= usize::MAX,
    ensures
        held(r) == aes256_gcm_seal(key@, nonce@, plaintext@),
        r is Some <==> plaintext@.len() <= MAX_PLAINTEXT_LEN,
        r matches Some(c) ==> c@.len() == plaintext@.len() + TAG_LEN,
        r matches Some(c) ==> aes256_gcm_open(key@, nonce@, c@) == Some(plaintext@),
        r matches Some(c) ==> forall|other: Seq<u8>|
            differs_in_tag_only(other, c@) ==> (#[trigger] aes256_gcm_open(key@, nonce@, other))
                is None,
{
    let cipher = Aes256Gcm::new(Key::<Aes256Gcm>::from_slice(key));
    match cipher.encrypt(Nonce::from_slice(nonce), plaintext) {
        Ok(sealed) => Some(sealed),
        Err(_) => None,
    }
}

/// Calls `Aes256Gcm::decrypt` of the crate aes-gcm with a key and nonce built
/// by `from_slice`. Trusted, not proved: the result is the named opening of
/// the arguments; a buffer too short to hold a tag is refused; and a recovered
/// plaintext is the buffer's length less the tag.
#[verifier::external_body]
pub(crate) fn unseal(key: &[u8], nonce: &[u8], sealed: &[u8]) -> (r: Option<Vec<u8>>)
    requires
        key@.len() == KEY_LEN,
        nonce@.len() == NONCE_LEN,
    ensures
        held(r) == aes256_gcm_open(key@, nonce@, sealed@),
        sealed@.len() < TAG_LEN ==> r is None,
        r matches Some(p) ==> p@.len() + TAG_LEN == sealed@.len(),
{
    let cipher = Aes256Gcm::new(Key::<Aes256Gcm>::from_slice(key));
    match cipher.decrypt(Nonce::from_slice(nonce), sealed) {
        Ok(plaintext) => Some(plaintext),
        Err(_) => None,
    }
}

/// Calls `Zeroize::zeroize` of the crate zeroize on a byte vector. Trusted, not
/// proved: the vector is empty afterwards. (The crate overwrites the bytes
/// with zeros before it clears the vector.)
#[verifier::external_body]
pub(crate) fn wipe(secret: &mut Vec<u8>)
    ensures
        final(secret)@.len() == 0,
{
    secret.zeroize();
}

} // verus!
