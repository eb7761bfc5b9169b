use rpgmvmz_decrypter::decrypter::{DecryptError, Decrypter, HEADER_LEN};
use rpgmvmz_decrypter::encryption_key::EncryptionKey;
use rpgmvmz_decrypter::pipeline::transform;
use rpgmvmz_decrypter::plan::Action;

fn buffer(len: usize) -> Vec<u8> {
    (0..len).map(|i| (i * 7 + 3) as u8).collect()
}

#[test]
fn keeps_the_header_and_masks_the_body() {
    let d = Decrypter::new("a1b2c3d4").unwrap();
    let original = buffer(24);
    let mut bytes = original.clone();
    assert_eq!(d.decrypt(&mut bytes), Ok(()));
    assert_eq!(&bytes[..HEADER_LEN], &original[..HEADER_LEN]);
    assert_eq!(bytes[16], original[16] ^ 0xa1);
    assert_eq!(bytes[17], original[17] ^ 0xb2);
    assert_eq!(bytes[18], original[18] ^ 0xc3);
    assert_eq!(bytes[19], original[19] ^ 0xd4);
    assert_eq!(&bytes[20..], &original[20..]);
}

#[test]
fn exact_masked_values() {
    let d = Decrypter::new("0ff0").unwrap();
    let mut bytes = vec![0xffu8; 19];
    d.decrypt(&mut bytes).unwrap();
    let mut expected = vec![0xffu8; 19];
    expected[16] = 0xf0;
    expected[17] = 0x0f;
    assert_eq!(bytes, expected);
}

#[test]
fn a_key_longer_than_the_body_masks_the_whole_body() {
    let d = Decrypter::new("0102030405").unwrap();
    let mut bytes = vec![0u8; 18];
    d.decrypt(&mut bytes).unwrap();
    let mut expected = vec![0u8; 18];
    expected[16] = 1;
    expected[17] = 2;
    assert_eq!(bytes, expected);
}

#[test]
fn a_bare_header_is_left_as_it_is() {
    let d = Decrypter::new("ffff").unwrap();
    let original = buffer(16);
    let mut bytes = original.clone();
    assert_eq!(d.decrypt(&mut bytes), Ok(()));
    assert_eq!(bytes, original);
}

#[test]
fn refuses_a_buffer_shorter_than_the_header() {
    let d = Decrypter::new("ffff").unwrap();
    let original = buffer(15);
    let mut bytes = original.clone();
    assert_eq!(d.decrypt(&mut bytes), Err(DecryptError::TooShort { len: 15 }));
    assert_eq!(bytes, original);
    let mut empty: Vec<u8> = Vec::new();
    assert_eq!(d.decrypt(&mut empty), Err(DecryptError::TooShort { len: 0 }));
}

#[test]
fn decrypting_twice_gives_the_buffer_back() {
    let d = Decrypter::new("a1b2c3d4e5f60718").unwrap();
    let original = buffer(24);
    let mut bytes = original.clone();
    d.decrypt(&mut bytes).unwrap();
    assert_ne!(bytes, original);
    d.decrypt(&mut bytes).unwrap();
    assert_eq!(bytes, original);
}

#[test]
fn decrypter_from_a_parsed_key() {
    let key = EncryptionKey::from_str("ff").unwrap();
    let d = Decrypter::from_key(&key);
    let mut bytes = vec![0u8; 17];
    d.decrypt(&mut bytes).unwrap();
    assert_eq!(bytes[16], 0xff);
}

#[test]
fn transform_decrypts_or_passes_through() {
    let d = Decrypter::new("ff").unwrap();
    let original = buffer(20);
    let out = transform(&d, Action::Decrypt, original.clone()).unwrap();
    assert_eq!(out[16], original[16] ^ 0xff);
    assert_eq!(&out[17..], &original[17..]);
    let copied = transform(&d, Action::Copy, original.clone()).unwrap();
    assert_eq!(copied, original);
    let short = transform(&d, Action::Decrypt, vec![1, 2, 3]);
    assert_eq!(short, Err(DecryptError::TooShort { len: 3 }));
    let short_copy = transform(&d, Action::Copy, vec![1, 2, 3]).unwrap();
    assert_eq!(short_copy, vec![1, 2, 3]);
}
