use vstd::prelude::*;
use vstd::slice::slice_subrange;
use crate::error::CryptError;

verus! {

/// Length of the salt at the head of a container.
pub const SALT_LEN: usize = 16;

/// Length of the nonce that follows the salt.
pub const NONCE_LEN: usize = 12;

/// Length of salt and nonce together: the shortest a container can be.
pub const HEADER_LEN: usize = 28;

/// The three fields of a container, apart.
pub struct Container {
    pub salt: Vec<u8>,
    pub nonce: Vec<u8>,
    pub ciphertext: Vec<u8>,
}

/// The byte layout of a container: salt, then nonce, then ciphertext with its tag.
pub open spec fn layout(salt: Seq<u8>, nonce: Seq<u8>, ciphertext: Seq<u8>) -> Seq<u8> {
    salt + nonce + ciphertext
}

/// The salt field of container bytes: offsets 0 up to 16.
pub open spec fn salt_of(bytes: Seq<u8>) -> Seq<u8> {
    bytes.subrange(0, SALT_LEN as int)
}

/// The nonce field of container bytes: offsets 16 up to 28.
pub open spec fn nonce_of(bytes: Seq<u8>) -> Seq<u8> {
    bytes.subrange(SALT_LEN as int, HEADER_LEN as int)
}

/// The ciphertext field of container bytes: offset 28 to the end.
pub open spec fn ciphertext_of(bytes: Seq<u8>) -> Seq<u8> {
    bytes.subrange(HEADER_LEN as int, bytes.len() as int)
}

impl Container {
    /// Salt and nonce have their fixed lengths.
    pub open spec fn wf(&self) -> bool {
        &&& self.salt@.len() == SALT_LEN
        &&& self.nonce@.len() == NONCE_LEN
    }

    /// The bytes this container is written as.
    pub open spec fn bytes(&self) -> Seq<u8> {
        layout(self.salt@, self.nonce@, self.ciphertext@)
    }

    /// Writes the fields one after the other.
    pub fn encode(&self) -> (out: Vec<u8>)
        requires
            self.wf(),
        ensures
            out@ == self.bytes(),
            out@.len() == HEADER_LEN + self.ciphertext@.len(),
    {
        let mut out: Vec<u8> = Vec::new();
        out.extend_from_slice(self.salt.as_slice());
        out.extend_from_slice(self.nonce.as_slice());
        out.extend_from_slice(self.ciphertext.as_slice());
        assert(out@ =~= self.bytes());
        out
    }

    /// Splits container bytes at the fixed offsets. Bytes shorter than the
    /// header are refused; anything else splits.
    pub fn decode(bytes: &[u8]) -> (r: Result<Container, CryptError>)
        ensures
            bytes@.len() < HEADER_LEN <==> r == Err::<Container, CryptError>(CryptError::TooShort),
            bytes@.len() >= HEADER_LEN <==> r is Ok,
            r matches Ok(c) ==> {
                &&& c.wf()
                &&& c.salt@ == salt_of(bytes@)
                &&& c.nonce@ == nonce_of(bytes@)
                &&& c.ciphertext@ == ciphertext_of(bytes@)
                &&& c.bytes() == bytes@
            },
    {
        if bytes.len() < HEADER_LEN {
            return Err(CryptError::TooShort);
        }
        let mut salt: Vec<u8> = Vec::new();
        salt.extend_from_slice(slice_subrange(bytes, 0, SALT_LEN));
        let mut nonce: Vec<u8> = Vec::new();
        nonce.extend_from_slice(slice_subrange(bytes, SALT_LEN, HEADER_LEN));
        let mut ciphertext: Vec<u8> = Vec::new();
        ciphertext.extend_from_slice(slice_subrange(bytes, HEADER_LEN, bytes.len()));
        let c = Container { salt, nonce, ciphertext };
        assert(c.salt@ =~= salt_of(bytes@));
        assert(c.nonce@ =~= nonce_of(bytes@));
        assert(c.ciphertext@ =~= ciphertext_of(bytes@));
        assert(c.bytes() =~= bytes@);
        Ok(c)
    }
}

/// Splitting what was laid out gives the fields back.
pub proof fn lemma_fields_of_layout(salt: Seq<u8>, nonce: Seq<u8>, ciphertext: Seq<u8>)
    requires
        salt.len() == SALT_LEN,
        nonce.len() == NONCE_LEN,
    ensures
        layout(salt, nonce, ciphertext).len() == HEADER_LEN + ciphertext.len(),
        salt_of(layout(salt, nonce, ciphertext)) == salt,
        nonce_of(layout(salt, nonce, ciphertext)) == nonce,
        ciphertext_of(layout(salt, nonce, ciphertext)) == ciphertext,
{
    let b = layout(salt, nonce, ciphertext);
    assert(salt_of(b) =~= salt);
    assert(nonce_of(b) =~= nonce);
    assert(ciphertext_of(b) =~= ciphertext);
}

/// Laying out the fields of bytes that hold a whole header gives the bytes back.
pub proof fn lemma_layout_of_fields(bytes: Seq<u8>)
    requires
        bytes.len() >= HEADER_LEN,
    ensures
        layout(salt_of(bytes), nonce_of(bytes), ciphertext_of(bytes)) == bytes,
{
    assert(layout(salt_of(bytes), nonce_of(bytes), ciphertext_of(bytes)) =~= bytes);
}

} // verus!
