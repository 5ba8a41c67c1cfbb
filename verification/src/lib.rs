//! Password-based protection of byte payloads: an authenticated, encrypted
//! container format, the key derivation and cipher behind it, an archive
//! adapter for directory trees, the block schedule of secure erasure, and the
//! state machine that sequences a protect or reveal run.

pub mod error;
pub mod container;
pub mod cipher;
pub mod kdf;
pub mod random;
pub mod transform;
pub mod erasure;
pub mod pipeline;
pub mod archive;

pub use crate::error::CryptError;
pub use crate::transform::{decrypt_file, encrypt_file, AesMode};
pub use crate::archive::{unzip_to_folder, zip_folder, Entry};
