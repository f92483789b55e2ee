use jvm_function_invoker_buildpack::fingerprint::{fingerprint, hex_encode};

#[test]
fn fingerprint_of_empty_input() {
    assert_eq!(
        fingerprint(&[]),
        "e3b0c44298fc1c149afbf4c8996fb92427ae41e4649b934ca495991b7852b855"
    );
}

#[test]
fn fingerprint_of_abc() {
    assert_eq!(
        fingerprint(b"abc"),
        "ba7816bf8f01cfea414140de5dae2223b00361a396177a9cb410ff61f20015ad"
    );
}

#[test]
fn fingerprint_is_deterministic() {
    let bytes: Vec<u8> = (0u8..=255).collect();
    assert_eq!(fingerprint(&bytes), fingerprint(&bytes.clone()));
}

#[test]
fn fingerprint_changes_with_any_single_byte() {
    let bytes: Vec<u8> = b"runtime artifact contents".to_vec();
    let original = fingerprint(&bytes);
    for i in 0..bytes.len() {
        let mut changed = bytes.clone();
        changed[i] ^= 0x01;
        assert_ne!(fingerprint(&changed), original);
    }
}

#[test]
fn fingerprint_is_sixty_four_hex_digits() {
    let f = fingerprint(b"hello");
    assert_eq!(f.len(), 64);
    assert!(f.chars().all(|c| c.is_ascii_hexdigit() && !c.is_ascii_uppercase()));
}

#[test]
fn hex_encode_two_digits_per_byte() {
    assert_eq!(hex_encode(&[0x00, 0xff, 0x1a, 0x09, 0xa0]), "00ff1a09a0");
    assert_eq!(hex_encode(&[]), "");
}
