use vstd::prelude::*;
use vstd::string::StringSliceAdditionalSpecFns;
use crate::cipher::{
    aes256_gcm_open, aes256_gcm_seal, differs_in_tag_only, seal, unseal, wipe, MAX_PLAINTEXT_LEN,
    TAG_LEN,
};
use crate::container::{
    ciphertext_of, layout, lemma_fields_of_layout, nonce_of, salt_of, Container, HEADER_LEN,
    NONCE_LEN, SALT_LEN,
};
use crate::error::CryptError;
use crate::kdf::{derive_key, derive_spec, outcome};
use crate::random::os_random;
use crate::archive::{
    classify_payload, pack_spec, unpacked, views, zip_folder, Entry, Payload,
};

verus! {

/// The cipher modes a caller can name. Only the authenticated one is served.
#[derive(Clone, Copy, Debug, PartialEq, Eq, Structural)]
pub enum AesMode {
    Gcm,
    Cbc,
}

/// Whether a plaintext of this length can be sealed: the cipher takes at most
/// 2^36 bytes, and the sealed buffer, 16 bytes longer, must fit in memory.
pub open spec fn sealable(len: nat) -> bool {
    len <= MAX_PLAINTEXT_LEN && len + TAG_LEN <= usize::MAX
}

/// The container that protecting a plaintext gives, for a password and the
/// salt and nonce drawn for this run.
pub open spec fn protect_spec(
    plaintext: Seq<u8>,
    password: Seq<u8>,
    salt: Seq<u8>,
    nonce: Seq<u8>,
) -> Result<Seq<u8>, CryptError> {
    match derive_spec(password, salt) {
        Err(e) => Err(e),
        Ok(key) => if !sealable(plaintext.len()) {
            Err(CryptError::Encryption)
        } else {
            match aes256_gcm_seal(key, nonce, plaintext) {
                None => Err(CryptError::Encryption),
                Some(sealed) => Ok(layout(salt, nonce, sealed)),
            }
        },
    }
}

/// The plaintext that revealing a container gives, for a password. The length
/// is tested before anything is derived or opened, and no plaintext comes out
/// unless the cipher has verified the tag.
pub open spec fn recover_spec(container: Seq<u8>, password: Seq<u8>) -> Result<Seq<u8>, CryptError> {
    if container.len() < HEADER_LEN {
        Err(CryptError::TooShort)
    } else {
        match derive_spec(password, salt_of(container)) {
            Err(e) => Err(e),
            Ok(key) => match aes256_gcm_open(key, nonce_of(container), ciphertext_of(container)) {
                None => Err(CryptError::Authentication),
                Some(plaintext) => Ok(plaintext),
            },
        }
    }
}

/// A container whose sealed part opens to a plaintext, under the key of its
/// own salt and its own nonce, reveals to that plaintext.
pub proof fn lemma_recover_of_layout(
    plaintext: Seq<u8>,
    password: Seq<u8>,
    salt: Seq<u8>,
    nonce: Seq<u8>,
    key: Seq<u8>,
    sealed: Seq<u8>,
)
    requires
        salt.len() == SALT_LEN,
        nonce.len() == NONCE_LEN,
        derive_spec(password, salt) == Ok::<Seq<u8>, CryptError>(key),
        aes256_gcm_open(key, nonce, sealed) == Some(plaintext),
    ensures
        recover_spec(layout(salt, nonce, sealed), password) == Ok::<Seq<u8>, CryptError>(plaintext),
{
    lemma_fields_of_layout(salt, nonce, sealed);
}

/// A container with a damaged tag: bytes of the same length as a container
/// that agree with it in everything before its last 16 bytes and differ from
/// it there. One flipped bit in the tag is the least such damage.
pub open spec fn tag_damaged(damaged: Seq<u8>, container: Seq<u8>) -> bool {
    &&& damaged.len() == container.len()
    &&& container.len() >= HEADER_LEN + TAG_LEN
    &&& damaged.subrange(0, damaged.len() - TAG_LEN) == container.subrange(
        0,
        container.len() - TAG_LEN,
    )
    &&& damaged != container
}

/// Where no buffer that differs from the sealed part in the tag alone opens,
/// a container with a damaged tag fails authentication.
pub proof fn lemma_damaged_tag_fails(
    damaged: Seq<u8>,
    password: Seq<u8>,
    salt: Seq<u8>,
    nonce: Seq<u8>,
    key: Seq<u8>,
    sealed: Seq<u8>,
)
    requires
        salt.len() == SALT_LEN,
        nonce.len() == NONCE_LEN,
        derive_spec(password, salt) == Ok::<Seq<u8>, CryptError>(key),
        tag_damaged(damaged, layout(salt, nonce, sealed)),
        forall|other: Seq<u8>|
            differs_in_tag_only(other, sealed) ==> (#[trigger] aes256_gcm_open(key, nonce, other))
                is None,
    ensures
        recover_spec(damaged, password) == Err::<Seq<u8>, CryptError>(CryptError::Authentication),
{
    let whole = layout(salt, nonce, sealed);
    let cut = whole.len() - TAG_LEN;
    lemma_fields_of_layout(salt, nonce, sealed);
    assert forall|i: int| 0 <= i < cut implies damaged[i] == whole[i] by {
        assert(damaged.subrange(0, cut)[i] == whole.subrange(0, cut)[i]);
    }
    assert(salt_of(damaged) =~= salt);
    assert(nonce_of(damaged) =~= nonce);
    let tail = ciphertext_of(damaged);
    assert(tail.subrange(0, tail.len() - TAG_LEN) =~= sealed.subrange(0, sealed.len() - TAG_LEN));
    if tail == sealed {
        assert(damaged =~= whole);
    }
    assert(differs_in_tag_only(tail, sealed));
}

/// Protects a plaintext under a password with a given salt and nonce: derives
/// the key, seals the plaintext, and lays out the container. The key is wiped
/// before the function returns. Revealing the container with the same password
/// gives the plaintext back, and revealing it with a damaged tag fails
/// authentication.
pub fn protect(plaintext: &[u8], password: &[u8], salt: &[u8], nonce: &[u8]) -> (r: Result<
    Vec<u8>,
    CryptError,
>)
    requires
        salt@.len() == SALT_LEN,
        nonce@.len() == NONCE_LEN,
    ensures
        outcome(r) == protect_spec(plaintext@, password@, salt@, nonce@),
        r matches Ok(c) ==> c@.len() == HEADER_LEN + plaintext@.len() + TAG_LEN,
        r matches Ok(c) ==> recover_spec(c@, password@) == Ok::<Seq<u8>, CryptError>(plaintext@),
        r matches Ok(c) ==> forall|damaged: Seq<u8>| #[trigger]
            tag_damaged(damaged, c@) ==> recover_spec(damaged, password@) == Err::<
                Seq<u8>,
                CryptError,
            >(CryptError::Authentication),
        r is Ok <==> derive_spec(password@, salt@) is Ok && sealable(plaintext@.len()),
{
    let mut key = match derive_key(password, salt) {
        Ok(key) => key,
        Err(e) => {
            return Err(e);
        },
    };
    let ghost key_bytes = key@;
    if plaintext.len() > usize::MAX - TAG_LEN || plaintext.len() as u64 > MAX_PLAINTEXT_LEN {
        wipe(&mut key);
        return Err(CryptError::Encryption);
    }
    let sealed = seal(key.as_slice(), nonce, plaintext);
    wipe(&mut key);
    match sealed {
        None => Err(CryptError::Encryption),
        Some(ciphertext) => {
            proof {
                lemma_recover_of_layout(
                    plaintext@,
                    password@,
                    salt@,
                    nonce@,
                    key_bytes,
                    ciphertext@,
                );
                assert forall|damaged: Seq<u8>| #[trigger]
                    tag_damaged(damaged, layout(salt@, nonce@, ciphertext@)) implies recover_spec(
                    damaged,
                    password@,
                ) == Err::<Seq<u8>, CryptError>(CryptError::Authentication) by {
                    lemma_damaged_tag_fails(
                        damaged,
                        password@,
                        salt@,
                        nonce@,
                        key_bytes,
                        ciphertext@,
                    );
                }
            }
            let mut salt_field: Vec<u8> = Vec::new();
            salt_field.extend_from_slice(salt);
            let mut nonce_field: Vec<u8> = Vec::new();
            nonce_field.extend_from_slice(nonce);
            assert(salt_field@ =~= salt@);
            assert(nonce_field@ =~= nonce@);
            let container = Container { salt: salt_field, nonce: nonce_field, ciphertext };
            Ok(container.encode())
        },
    }
}

/// Reveals a container under a password: refuses one shorter than the header
/// before anything else, splits it, derives the key from its salt, and opens
/// the sealed part. The key is wiped before the function returns.
pub fn recover(container: &[u8], password: &[u8]) -> (r: Result<Vec<u8>, CryptError>)
    ensures
        outcome(r) == recover_spec(container@, password@),
        container@.len() < HEADER_LEN <==> r == Err::<Vec<u8>, CryptError>(CryptError::TooShort),
        container@.len() < HEADER_LEN + TAG_LEN ==> r is Err,
        HEADER_LEN <= container@.len() < HEADER_LEN + TAG_LEN && derive_spec(
            password@,
            salt_of(container@),
        ) is Ok ==> r == Err::<Vec<u8>, CryptError>(CryptError::Authentication),
        r matches Ok(p) ==> p@.len() + HEADER_LEN + TAG_LEN == container@.len(),
{
    let fields = match Container::decode(container) {
        Ok(fields) => fields,
        Err(e) => {
            return Err(e);
        },
    };
    let mut key = match derive_key(password, fields.salt.as_slice()) {
        Ok(key) => key,
        Err(e) => {
            return Err(e);
        },
    };
    let opened = unseal(key.as_slice(), fields.nonce.as_slice(), fields.ciphertext.as_slice());
    wipe(&mut key);
    match opened {
        None => Err(CryptError::Authentication),
        Some(plaintext) => Ok(plaintext),
    }
}

/// What `encrypt_file` may return for a plaintext and a password: in the
/// authenticated mode, either the random source failed, or the result is the
/// protection of the plaintext under some salt and nonce of the fixed lengths.
pub open spec fn encrypt_spec(
    plaintext: Seq<u8>,
    password: Seq<u8>,
    mode: AesMode,
    r: Result<Seq<u8>, CryptError>,
) -> bool {
    if mode != AesMode::Gcm {
        r == Err::<Seq<u8>, CryptError>(CryptError::UnsupportedMode)
    } else {
        ||| r == Err::<Seq<u8>, CryptError>(CryptError::RandomSource)
        ||| exists|salt: Seq<u8>, nonce: Seq<u8>|
            {
                &&& salt.len() == SALT_LEN
                &&& nonce.len() == NONCE_LEN
                &&& r == #[trigger] protect_spec(plaintext, password, salt, nonce)
            }
    }
}

/// Encrypts the contents of a file into a container, under a password. Salt
/// and nonce are drawn afresh from the system's random source on every call.
/// Any mode but the authenticated one is refused. Decrypting the container
/// with the same password gives the contents back, and decrypting it with a
/// damaged tag fails authentication.
pub fn encrypt_file(plaintext: &[u8], password: &str, mode: AesMode) -> (r: Result<
    Vec<u8>,
    CryptError,
>)
    ensures
        encrypt_spec(plaintext@, password.spec_bytes(), mode, outcome(r)),
        r matches Ok(c) ==> c@.len() == HEADER_LEN + plaintext@.len() + TAG_LEN,
        r matches Ok(c) ==> recover_spec(c@, password.spec_bytes()) == Ok::<Seq<u8>, CryptError>(
            plaintext@,
        ),
        r matches Ok(c) ==> forall|damaged: Seq<u8>| #[trigger]
            tag_damaged(damaged, c@) ==> recover_spec(damaged, password.spec_bytes()) == Err::<
                Seq<u8>,
                CryptError,
            >(CryptError::Authentication),
{
    if mode != AesMode::Gcm {
        return Err(CryptError::UnsupportedMode);
    }
    let salt = match os_random(SALT_LEN) {
        Some(salt) => salt,
        None => {
            return Err(CryptError::RandomSource);
        },
    };
    let nonce = match os_random(NONCE_LEN) {
        Some(nonce) => nonce,
        None => {
            return Err(CryptError::RandomSource);
        },
    };
    protect(plaintext, password.as_bytes(), salt.as_slice(), nonce.as_slice())
}

/// Decrypts a container into the contents it protects, under a password. Any
/// mode but the authenticated one is refused; a container shorter than its
/// header is refused before any key is derived; one that holds a header but
/// no whole tag fails authentication once the key is derived; a wrong password
/// or a corrupted container is an authentication error. What comes out is
/// shorter than the container by header and tag.
pub fn decrypt_file(container: &[u8], password: &str, mode: AesMode) -> (r: Result<
    Vec<u8>,
    CryptError,
>)
    ensures
        mode != AesMode::Gcm ==> r == Err::<Vec<u8>, CryptError>(CryptError::UnsupportedMode),
        mode == AesMode::Gcm ==> outcome(r) == recover_spec(container@, password.spec_bytes()),
        mode == AesMode::Gcm && container@.len() < HEADER_LEN ==> r == Err::<Vec<u8>, CryptError>(
            CryptError::TooShort,
        ),
        mode == AesMode::Gcm && container@.len() < HEADER_LEN + TAG_LEN ==> r is Err,
        mode == AesMode::Gcm && HEADER_LEN <= container@.len() < HEADER_LEN + TAG_LEN
            && derive_spec(password.spec_bytes(), salt_of(container@)) is Ok ==> r == Err::<
            Vec<u8>,
            CryptError,
        >(CryptError::Authentication),
        r matches Ok(p) ==> p@.len() + HEADER_LEN + TAG_LEN == container@.len(),
{
    if mode != AesMode::Gcm {
        return Err(CryptError::UnsupportedMode);
    }
    recover(container, password.as_bytes())
}

/// Why protecting a directory tree failed.
pub enum TreeError {
    /// The tree could not be packed; the text says why.
    Archive(String),
    /// The archive could not be encrypted.
    Crypt(CryptError),
}

/// Protects a directory tree: packs its entries into one archive and encrypts
/// the archive into a container. A tree that cannot be packed gives the
/// archive error; otherwise the result is what encrypting the archive gives,
/// be it a container or an error. Decrypting the container with the same
/// password gives exactly the archive of the tree.
pub fn protect_tree(entries: &Vec<Entry>, password: &str, mode: AesMode) -> (r: Result<
    Vec<u8>,
    TreeError,
>)
    ensures
        mode != AesMode::Gcm ==> r matches Err(TreeError::Crypt(CryptError::UnsupportedMode)),
        mode == AesMode::Gcm ==> !(r matches Err(TreeError::Crypt(CryptError::UnsupportedMode))),
        r matches Ok(c) ==> match recover_spec(c@, password.spec_bytes()) {
            Ok(archive) => pack_spec(views(entries@)) == Some(archive),
            Err(_) => false,
        },
        mode == AesMode::Gcm ==> match pack_spec(views(entries@)) {
            Some(archive) => match r {
                Ok(c) => encrypt_spec(archive, password.spec_bytes(), mode, Ok(c@)),
                Err(TreeError::Crypt(e)) => encrypt_spec(
                    archive,
                    password.spec_bytes(),
                    mode,
                    Err(e),
                ),
                Err(TreeError::Archive(_)) => false,
            },
            None => r matches Err(TreeError::Archive(_)),
        },
{
    if mode != AesMode::Gcm {
        return Err(TreeError::Crypt(CryptError::UnsupportedMode));
    }
    let archive = match zip_folder(entries) {
        Ok(archive) => archive,
        Err(text) => {
            return Err(TreeError::Archive(text));
        },
    };
    match encrypt_file(archive.as_slice(), password, mode) {
        Ok(container) => Ok(container),
        Err(e) => {
            proof {
                lemma_protect_errors(archive@, password.spec_bytes());
            }
            Err(TreeError::Crypt(e))
        },
    }
}

/// Protecting never fails for want of a mode, nor with an error of revealing.
pub proof fn lemma_protect_errors(plaintext: Seq<u8>, password: Seq<u8>)
    ensures
        forall|salt: Seq<u8>, nonce: Seq<u8>|
            {
                let r = #[trigger] protect_spec(plaintext, password, salt, nonce);
                r != Err::<Seq<u8>, CryptError>(CryptError::UnsupportedMode) && r != Err::<
                    Seq<u8>,
                    CryptError,
                >(CryptError::TooShort) && r != Err::<Seq<u8>, CryptError>(
                    CryptError::Authentication,
                ) && r != Err::<Seq<u8>, CryptError>(CryptError::RandomSource)
            },
{
}

/// Reveals a container and tells what its payload is: the entries of a
/// directory tree where the payload unpacks in full, the bytes of a file
/// otherwise. Errors are those of decrypting.
pub fn reveal_payload(container: &[u8], password: &str, mode: AesMode) -> (r: Result<
    Payload,
    CryptError,
>)
    ensures
        mode != AesMode::Gcm ==> r matches Err(CryptError::UnsupportedMode),
        mode == AesMode::Gcm ==> match recover_spec(container@, password.spec_bytes()) {
            Err(e) => r matches Err(f) && f == e,
            Ok(payload) => match r {
                Ok(Payload::Directory(entries)) => unpacked(payload) == Some(views(entries@)),
                Ok(Payload::Opaque(bytes)) => unpacked(payload) is None && bytes@ == payload,
                Err(_) => false,
            },
        },
{
    match decrypt_file(container, password, mode) {
        Ok(payload) => Ok(classify_payload(payload)),
        Err(e) => Err(e),
    }
}

} // verus!
