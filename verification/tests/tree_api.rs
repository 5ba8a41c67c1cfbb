use aes4linux::archive::{Entry, Payload};
use aes4linux::transform::{protect_tree, reveal_payload, TreeError};
use aes4linux::{decrypt_file, encrypt_file, zip_folder, AesMode, CryptError};

fn tree() -> Vec<Entry> {
    vec![
        Entry { name: String::new(), is_dir: true, contents: Vec::new() },
        Entry { name: "a.txt".to_string(), is_dir: false, contents: b"File A".to_vec() },
        Entry { name: "b.txt".to_string(), is_dir: false, contents: b"File B".to_vec() },
        Entry { name: "empty".to_string(), is_dir: true, contents: Vec::new() },
        Entry { name: "empty.txt".to_string(), is_dir: false, contents: Vec::new() },
    ]
}

#[test]
fn protected_tree_reveals_as_a_directory() {
    let container = match protect_tree(&tree(), "testpassword", AesMode::Gcm) {
        Ok(container) => container,
        Err(_) => panic!("protecting the tree failed"),
    };
    match reveal_payload(&container, "testpassword", AesMode::Gcm) {
        Ok(Payload::Directory(entries)) => {
            assert_eq!(entries.len(), 4);
            assert_eq!(entries[0].name, "a.txt");
            assert_eq!(entries[0].contents, b"File A");
            assert_eq!(entries[1].name, "b.txt");
            assert_eq!(entries[1].contents, b"File B");
            assert_eq!(entries[2].name, "empty/");
            assert!(entries[2].is_dir);
            assert_eq!(entries[3].name, "empty.txt");
            assert!(!entries[3].is_dir);
            assert!(entries[3].contents.is_empty());
        }
        _ => panic!("the tree did not come back as a directory"),
    }
}

#[test]
fn protected_tree_holds_the_archive_of_the_tree() {
    let container = match protect_tree(&tree(), "pw", AesMode::Gcm) {
        Ok(container) => container,
        Err(_) => panic!("protecting the tree failed"),
    };
    let archive = zip_folder(&tree()).unwrap();
    assert_eq!(container.len(), 28 + archive.len() + 16);
    assert_eq!(decrypt_file(&container, "pw", AesMode::Gcm).unwrap(), archive);
}

#[test]
fn protected_file_reveals_as_opaque_bytes() {
    let container = encrypt_file(b"Hello, AES4Linux!", "testpassword", AesMode::Gcm).unwrap();
    match reveal_payload(&container, "testpassword", AesMode::Gcm) {
        Ok(Payload::Opaque(bytes)) => assert_eq!(bytes, b"Hello, AES4Linux!"),
        _ => panic!("the file did not come back as bytes"),
    }
}

#[test]
fn reveal_payload_passes_errors_on() {
    let container = encrypt_file(b"data", "testpassword", AesMode::Gcm).unwrap();
    assert!(matches!(
        reveal_payload(&container, "wrongpass", AesMode::Gcm),
        Err(CryptError::Authentication)
    ));
    assert!(matches!(
        reveal_payload(&container[..20], "testpassword", AesMode::Gcm),
        Err(CryptError::TooShort)
    ));
    assert!(matches!(
        reveal_payload(&container, "testpassword", AesMode::Cbc),
        Err(CryptError::UnsupportedMode)
    ));
}

#[test]
fn protect_tree_refuses_other_modes() {
    assert!(matches!(
        protect_tree(&tree(), "pw", AesMode::Cbc),
        Err(TreeError::Crypt(CryptError::UnsupportedMode))
    ));
}
