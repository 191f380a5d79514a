use cardinal::error::{IoError, IoKind};
use cardinal::hash::{hash_dir, hash_file, Child, HashPathError};

#[test]
fn expected_file_hash() {
    assert_eq!(
        hash_file("nyan".as_bytes()),
        "046385855fc9580393853d8e81f240b66fe9a7b8"
    );
}

#[test]
fn expected_dir_hash() {
    let children = vec![
        Child::File("nyan".as_bytes().to_vec()),
        Child::File("meow".as_bytes().to_vec()),
    ];
    let digest = hash_dir(&children).expect("can't hash test directory.");
    assert_eq!(digest, "ed2ace949f083602446f66c68a5f38f1a3495542");
}

#[test]
fn file_hash_is_deterministic() {
    let contents = b"some file content".to_vec();
    assert_eq!(hash_file(&contents), hash_file(&contents));
}

#[test]
fn file_hash_changes_with_one_byte() {
    let a = hash_file(b"nyan");
    let b = hash_file(b"nyao");
    assert_ne!(a, b);
    assert_eq!(a.len(), 40);
    assert_eq!(b.len(), 40);
}

#[test]
fn empty_file_and_empty_dir_hash() {
    assert_eq!(hash_file(b""), "da39a3ee5e6b4b0d3255bfef95601890afd80709");
    let digest = hash_dir(&Vec::new()).expect("empty directory hashes");
    assert_eq!(digest, "da39a3ee5e6b4b0d3255bfef95601890afd80709");
}

#[test]
fn dir_hash_follows_enumeration_order() {
    let swapped = vec![
        Child::File("meow".as_bytes().to_vec()),
        Child::File("nyan".as_bytes().to_vec()),
    ];
    let digest = hash_dir(&swapped).expect("directory hashes");
    assert_eq!(digest, "75f1b0624087596eaf91b898fc2ea0e57369ed8e");
}

#[test]
fn subdirectory_contributes_its_digest() {
    let inner = hash_dir(&vec![
        Child::File("nyan".as_bytes().to_vec()),
        Child::File("meow".as_bytes().to_vec()),
    ])
    .expect("inner directory hashes");
    let outer = hash_dir(&vec![Child::Dir(inner.clone())]).expect("outer directory hashes");
    assert_eq!(outer, hash_file(inner.as_bytes()));
}

#[test]
fn symlink_is_rejected() {
    let children = vec![
        Child::File("nyan".as_bytes().to_vec()),
        Child::Unsupported,
        Child::File("meow".as_bytes().to_vec()),
    ];
    assert!(matches!(hash_dir(&children), Err(HashPathError::Symlink)));
}

#[test]
fn io_error_keeps_its_kind() {
    let e = IoError::new(IoKind::PermissionDenied, "denied".to_string());
    assert_eq!(e.kind, IoKind::PermissionDenied);
    assert_eq!(e.message, "denied");
}
