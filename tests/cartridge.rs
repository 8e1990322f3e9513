use smw::rom::{reference_digest_bytes, Rom, RomError};

#[test]
fn wrong_length_is_refused() {
    assert_eq!(Rom::new(&[]).err(), Some(RomError::WrongLength { len: 0 }));
    assert_eq!(Rom::new(&vec![0u8; 0x7ffff]).err(), Some(RomError::WrongLength { len: 0x7ffff }));
    assert_eq!(Rom::new(&vec![0u8; 0x80001]).err(), Some(RomError::WrongLength { len: 0x80001 }));
}

#[test]
fn other_content_is_refused() {
    assert_eq!(Rom::new(&vec![0u8; 0x80000]).err(), Some(RomError::DigestMismatch));
    let mut flipped = vec![0u8; 0x80000];
    flipped[0x1234] ^= 0x01;
    assert_eq!(Rom::new(&flipped).err(), Some(RomError::DigestMismatch));
}

#[test]
fn digest_is_computed_from_the_bytes() {
    let data = vec![0u8; 0x80000];
    let digest = sha1_smol::Sha1::from(&data[..]).digest().bytes();
    assert_ne!(digest, reference_digest_bytes());
    assert_eq!(Rom::with_digest(&data, &digest).err(), Some(RomError::DigestMismatch));
}

#[test]
fn reference_digest_is_accepted() {
    let data = vec![7u8; 0x80000];
    assert!(Rom::with_digest(&data, &reference_digest_bytes()).is_ok());
    let mut digest = reference_digest_bytes();
    digest[19] ^= 0x80;
    assert_eq!(Rom::with_digest(&data, &digest).err(), Some(RomError::DigestMismatch));
    assert_eq!(
        Rom::with_digest(&data[1..], &reference_digest_bytes()).err(),
        Some(RomError::WrongLength { len: 0x7ffff })
    );
}

#[test]
fn reference_digest_bytes_are_the_known_title() {
    assert_eq!(
        reference_digest_bytes(),
        [
            0xf9, 0x77, 0xaf, 0xab, 0xf2, 0x4e, 0xd2, 0x69, 0xd8, 0x63, 0x66, 0x20, 0x9a, 0x46,
            0x04, 0x50, 0xbb, 0xc3, 0x7e, 0x76
        ]
    );
}
