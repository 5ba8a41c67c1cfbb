use aes4linux::archive::{classify_payload, Entry, Payload};
use aes4linux::{unzip_to_folder, zip_folder};

fn entry(name: &str, is_dir: bool, contents: &[u8]) -> Entry {
    Entry { name: name.to_string(), is_dir, contents: contents.to_vec() }
}

#[test]
fn tree_round_trips_with_empty_dirs_and_empty_files() {
    let tree = vec![
        entry("", true, b""),
        entry("docs", true, b""),
        entry("docs/readme.txt", false, b"read me"),
        entry("docs/empty.bin", false, b""),
        entry("hollow", true, b""),
    ];
    let bytes = zip_folder(&tree).unwrap();
    let back = unzip_to_folder(&bytes).unwrap();
    assert_eq!(back.len(), 4);
    assert_eq!(back[0].name, "docs/");
    assert!(back[0].is_dir);
    assert_eq!(back[1].name, "docs/readme.txt");
    assert!(!back[1].is_dir);
    assert_eq!(back[1].contents, b"read me");
    assert_eq!(back[2].name, "docs/empty.bin");
    assert!(!back[2].is_dir);
    assert_eq!(back[2].contents, Vec::<u8>::new());
    assert_eq!(back[3].name, "hollow/");
    assert!(back[3].is_dir);
}

#[test]
fn empty_tree_gives_an_empty_archive() {
    let bytes = zip_folder(&Vec::new()).unwrap();
    assert!(!bytes.is_empty());
    assert_eq!(unzip_to_folder(&bytes).unwrap().len(), 0);
    let only_root = zip_folder(&vec![entry("", true, b"")]).unwrap();
    assert_eq!(unzip_to_folder(&only_root).unwrap().len(), 0);
}

#[test]
fn packing_twice_gives_the_same_bytes() {
    let tree = vec![entry("a.txt", false, b"File A"), entry("sub", true, b"")];
    assert_eq!(zip_folder(&tree).unwrap(), zip_folder(&tree).unwrap());
}

#[test]
fn contents_are_kept_exactly() {
    let data: Vec<u8> = (0..5000u32).map(|i| (i % 251) as u8).collect();
    let tree = vec![entry("big.bin", false, &data)];
    let bytes = zip_folder(&tree).unwrap();
    assert_ne!(bytes, data);
    let back = unzip_to_folder(&bytes).unwrap();
    assert_eq!(back.len(), 1);
    assert_eq!(back[0].contents, data);
}

#[test]
fn bytes_that_are_no_archive_are_refused() {
    assert!(unzip_to_folder(b"Hello, AES4Linux!").is_err());
    assert!(unzip_to_folder(&[]).is_err());
}

#[test]
fn truncated_archive_is_refused() {
    let tree = vec![entry("a.txt", false, b"File A"), entry("b.txt", false, b"File B")];
    let bytes = zip_folder(&tree).unwrap();
    assert!(unzip_to_folder(&bytes[..bytes.len() / 2]).is_err());
}

#[test]
fn archive_payload_is_a_directory() {
    let tree = vec![entry("a.txt", false, b"File A"), entry("sub", true, b"")];
    let bytes = zip_folder(&tree).unwrap();
    match classify_payload(bytes) {
        Payload::Directory(entries) => {
            assert_eq!(entries.len(), 2);
            assert_eq!(entries[0].name, "a.txt");
            assert_eq!(entries[0].contents, b"File A");
            assert_eq!(entries[1].name, "sub/");
            assert!(entries[1].is_dir);
        }
        Payload::Opaque(_) => panic!("an archive was taken for a file"),
    }
}

#[test]
fn other_payload_is_kept_as_it_is() {
    match classify_payload(b"Hello, AES4Linux!".to_vec()) {
        Payload::Opaque(bytes) => assert_eq!(bytes, b"Hello, AES4Linux!"),
        Payload::Directory(_) => panic!("a file was taken for an archive"),
    }
    match classify_payload(Vec::new()) {
        Payload::Opaque(bytes) => assert!(bytes.is_empty()),
        Payload::Directory(_) => panic!("nothing was taken for an archive"),
    }
}

#[test]
fn directory_names_are_closed_by_a_slash() {
    let bare = zip_folder(&vec![entry("sub", true, b""), entry("sub/f", false, b"x")]).unwrap();
    let closed = zip_folder(&vec![entry("sub/", true, b""), entry("sub/f", false, b"x")]).unwrap();
    assert_eq!(bare, closed);
    let back = unzip_to_folder(&bare).unwrap();
    assert_eq!(back[0].name, "sub/");
    assert!(back[0].is_dir);
    let windows = zip_folder(&vec![entry("sub\\", true, b"")]).unwrap();
    let back = unzip_to_folder(&windows).unwrap();
    assert_eq!(back[0].name, "sub\\");
    assert!(back[0].is_dir);
}

#[test]
fn entry_that_asks_for_a_password_is_refused() {
    let mut bytes: Vec<u8> = Vec::new();
    // One stored, empty file named "a".
    bytes.extend_from_slice(&[
        0x50, 0x4b, 0x03, 0x04, 20, 0, 0, 0, 0, 0, 0, 0, 0x21, 0, 0, 0, 0, 0, 0, 0, 0, 0, 0, 0, 0,
        0, 1, 0, 0, 0,
    ]);
    bytes.push(b'a');
    let directory_at = bytes.len() as u8;
    // Its directory record carries the extra field of an AES entry, though
    // the entry is not flagged as encrypted.
    bytes.extend_from_slice(&[
        0x50, 0x4b, 0x01, 0x02, 20, 3, 20, 0, 0, 0, 0, 0, 0, 0, 0x21, 0, 0, 0, 0, 0, 0, 0, 0, 0, 0,
        0, 0, 0, 1, 0, 11, 0, 0, 0, 0, 0, 0, 0, 0, 0, 0, 0, 0, 0, 0, 0,
    ]);
    bytes.push(b'a');
    bytes.extend_from_slice(&[0x01, 0x99, 7, 0, 2, 0, 0x41, 0x45, 3, 0, 0]);
    let directory_len = bytes.len() as u8 - directory_at;
    bytes.extend_from_slice(&[
        0x50, 0x4b, 0x05, 0x06, 0, 0, 0, 0, 1, 0, 1, 0, directory_len, 0, 0, 0, directory_at, 0,
        0, 0, 0, 0,
    ]);
    assert_eq!(directory_at, 31);
    assert_eq!(directory_len, 58);
    assert!(unzip_to_folder(&bytes).is_err());
    match classify_payload(bytes.clone()) {
        Payload::Opaque(kept) => assert_eq!(kept, bytes),
        Payload::Directory(_) => panic!("an unreadable archive was taken for a directory"),
    }
}

#[test]
fn same_record_without_the_extra_field_is_read() {
    let mut bytes: Vec<u8> = Vec::new();
    bytes.extend_from_slice(&[
        0x50, 0x4b, 0x03, 0x04, 20, 0, 0, 0, 0, 0, 0, 0, 0x21, 0, 0, 0, 0, 0, 0, 0, 0, 0, 0, 0, 0,
        0, 1, 0, 0, 0,
    ]);
    bytes.push(b'a');
    bytes.extend_from_slice(&[
        0x50, 0x4b, 0x01, 0x02, 20, 3, 20, 0, 0, 0, 0, 0, 0, 0, 0x21, 0, 0, 0, 0, 0, 0, 0, 0, 0, 0,
        0, 0, 0, 1, 0, 0, 0, 0, 0, 0, 0, 0, 0, 0, 0, 0, 0, 0, 0, 0, 0,
    ]);
    bytes.push(b'a');
    bytes.extend_from_slice(&[
        0x50, 0x4b, 0x05, 0x06, 0, 0, 0, 0, 1, 0, 1, 0, 47, 0, 0, 0, 31, 0, 0, 0, 0, 0,
    ]);
    let entries = unzip_to_folder(&bytes).unwrap();
    assert_eq!(entries.len(), 1);
    assert_eq!(entries[0].name, "a");
    assert!(!entries[0].is_dir);
    assert!(entries[0].contents.is_empty());
}
