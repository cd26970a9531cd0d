use franco_student_pay::commitment::commit;

fn hex(bytes: &[u8]) -> String {
    let mut s = String::new();
    for b in bytes {
        s.push_str(&format!("{:02x}", b));
    }
    s
}

#[test]
fn commit_is_sha256() {
    // Known SHA-256 vector: the digest of "abc".
    let d = commit(&b"abc".to_vec());
    assert_eq!(
        hex(&d),
        "ba7816bf8f01cfea414140de5dae2223b00361a396177a9cb410ff61f20015ad"
    );
}

#[test]
fn commit_of_empty_input() {
    // Known SHA-256 vector: the digest of the empty string.
    let d = commit(&Vec::new());
    assert_eq!(
        hex(&d),
        "e3b0c44298fc1c149afbf4c8996fb92427ae41e4649b934ca495991b7852b855"
    );
}

#[test]
fn commit_is_32_bytes_and_deterministic() {
    let a = commit(&b"kotani-ref-1".to_vec());
    let b = commit(&b"kotani-ref-1".to_vec());
    assert_eq!(a.len(), 32);
    assert_eq!(a, b);
}

#[test]
fn distinct_references_get_distinct_digests() {
    let a = commit(&b"r1".to_vec());
    let b = commit(&b"r2".to_vec());
    assert_ne!(a, b);
}
