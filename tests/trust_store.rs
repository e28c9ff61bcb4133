use quincy::tls::{root_store, TrustError};

#[test]
fn empty_certificate_list_gives_empty_store() {
    let store = root_store(&vec![]).unwrap();
    assert!(store.is_empty());
    assert_eq!(store.len(), 0);
}

#[test]
fn malformed_root_is_refused_with_its_position() {
    assert_eq!(root_store(&vec![vec![1, 2, 3]]).err().map(|_| ()), Some(()));
    match root_store(&vec![vec![0x30, 0x00], vec![]]) {
        Err(e) => assert_eq!(e, TrustError::InvalidRoot(0)),
        Ok(_) => panic!("malformed roots were accepted"),
    }
}
