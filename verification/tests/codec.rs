use bipper::big_endian::{u64_from_be_bytes, u64_to_be_bytes};
use bipper::error::{BlobError, ErrorClass};
use bipper::frame::{decode_header, encode_frame, FRAME_OVERHEAD, HEADER_LEN};
use bipper::key_material::{
    entropy_to_hash, entropy_to_key, fresh_nonce, fresh_secret, mnemonic_to_hash,
};
use bipper::mnemonic::{entropy_to_mnemonic, mnemonic_to_key};

const ZERO_PHRASE: &str = "abandon abandon abandon abandon abandon abandon abandon abandon abandon abandon abandon abandon abandon abandon abandon abandon abandon abandon abandon abandon abandon abandon abandon art";
const ONES_PHRASE: &str = "zoo zoo zoo zoo zoo zoo zoo zoo zoo zoo zoo zoo zoo zoo zoo zoo zoo zoo zoo zoo zoo zoo zoo vote";
const ZERO_ADDRESS: &str = "66687aadf862bd776c8fc18b8e9f8e20089714856ee233b3902a591d0d5f2925";

fn counting_secret() -> [u8; 32] {
    let mut secret = [0u8; 32];
    for (i, byte) in secret.iter_mut().enumerate() {
        *byte = i as u8;
    }
    secret
}

#[test]
fn big_endian_writes_most_significant_byte_first() {
    assert_eq!(u64_to_be_bytes(0), [0, 0, 0, 0, 0, 0, 0, 0]);
    assert_eq!(u64_to_be_bytes(19), [0, 0, 0, 0, 0, 0, 0, 19]);
    assert_eq!(u64_to_be_bytes(258), [0, 0, 0, 0, 0, 0, 1, 2]);
    assert_eq!(
        u64_to_be_bytes(0x0102_0304_0506_0708),
        [1, 2, 3, 4, 5, 6, 7, 8]
    );
    assert_eq!(u64_to_be_bytes(u64::MAX), [255; 8]);
}

#[test]
fn big_endian_reads_what_std_writes() {
    for n in [0u64, 1, 255, 256, 65_535, 1 << 32, u64::MAX - 1, u64::MAX] {
        assert_eq!(u64_to_be_bytes(n), n.to_be_bytes());
        assert_eq!(u64_from_be_bytes(&n.to_be_bytes()), n);
    }
}

#[test]
fn big_endian_round_trip() {
    let mut n: u64 = 1;
    for _ in 0..64 {
        assert_eq!(u64_from_be_bytes(&u64_to_be_bytes(n)), n);
        n = n.wrapping_mul(6_364_136_223_846_793_005).wrapping_add(1_442_695_040_888_963_407);
    }
}

#[test]
fn frame_is_length_then_nonce_then_sealed() {
    let nonce = [9u8, 8, 7, 6, 5, 4, 3, 2, 1, 0, 11, 12];
    let sealed = [0xaau8, 0xbb, 0xcc];
    let frame = encode_frame(&nonce, &sealed);
    let mut expected = vec![0u8, 0, 0, 0, 0, 0, 0, 3];
    expected.extend_from_slice(&nonce);
    expected.extend_from_slice(&sealed);
    assert_eq!(frame, expected);
    assert_eq!(frame.len(), HEADER_LEN + 3);
}

#[test]
fn frame_of_nothing_is_a_bare_header() {
    let frame = encode_frame(&[0u8; 12], &[]);
    assert_eq!(frame, vec![0u8; 20]);
}

#[test]
fn header_gives_length_and_nonce_back() {
    let nonce = [1u8, 2, 3, 4, 5, 6, 7, 8, 9, 10, 11, 12];
    let sealed = vec![7u8; 300];
    let frame = encode_frame(&nonce, &sealed);
    assert_eq!(decode_header(&frame[..HEADER_LEN]), Some((300, nonce)));
    assert_eq!(decode_header(&frame[..HEADER_LEN - 1]), None);
    assert_eq!(decode_header(&frame[..HEADER_LEN + 1]), None);
    assert_eq!(decode_header(&[]), None);
}

#[test]
fn frame_constants_add_up() {
    assert_eq!(HEADER_LEN, 8 + 12);
    assert_eq!(FRAME_OVERHEAD, 8 + 12 + 16);
}

#[test]
fn mnemonic_of_known_secrets() {
    assert_eq!(entropy_to_mnemonic(&[0u8; 32]), ZERO_PHRASE);
    assert_eq!(entropy_to_mnemonic(&[0xffu8; 32]), ONES_PHRASE);
    assert_eq!(
        entropy_to_mnemonic(&[0x7fu8; 32]),
        "legal winner thank year wave sausage worth useful legal winner thank year wave sausage worth useful legal winner thank year wave sausage worth title"
    );
}

#[test]
fn mnemonic_reads_back_to_its_secret() {
    assert_eq!(mnemonic_to_key(ZERO_PHRASE), Ok([0u8; 32]));
    assert_eq!(mnemonic_to_key(ONES_PHRASE), Ok([0xffu8; 32]));
    let secret = counting_secret();
    let phrase = entropy_to_mnemonic(&secret);
    assert_eq!(phrase.split(' ').count(), 24);
    assert_eq!(mnemonic_to_key(&phrase), Ok(secret));
}

#[test]
fn mnemonic_round_trip_over_many_secrets() {
    let mut secret = [0u8; 32];
    for round in 0..50u8 {
        for (i, byte) in secret.iter_mut().enumerate() {
            *byte = byte.wrapping_mul(31).wrapping_add(round).wrapping_add(i as u8);
        }
        assert_eq!(mnemonic_to_key(&entropy_to_mnemonic(&secret)), Ok(secret));
    }
}

#[test]
fn mnemonic_with_bad_checksum_is_rejected() {
    let phrase = ZERO_PHRASE.replace(" art", " abandon");
    assert_eq!(mnemonic_to_key(&phrase), Err(BlobError::InvalidMnemonic));
}

#[test]
fn mnemonic_with_unknown_word_is_rejected() {
    let phrase = ZERO_PHRASE.replace(" art", " artx");
    assert_eq!(mnemonic_to_key(&phrase), Err(BlobError::InvalidMnemonic));
}

#[test]
fn mnemonic_with_wrong_word_count_is_rejected() {
    assert_eq!(mnemonic_to_key(""), Err(BlobError::InvalidMnemonic));
    assert_eq!(mnemonic_to_key("abandon"), Err(BlobError::InvalidMnemonic));
    let short = ZERO_PHRASE.replacen("abandon ", "", 1);
    assert_eq!(short.split(' ').count(), 23);
    assert_eq!(mnemonic_to_key(&short), Err(BlobError::InvalidMnemonic));
}

#[test]
fn mnemonic_of_a_shorter_secret_is_rejected() {
    // A well-formed phrase of twelve words carries sixteen bytes, not a secret.
    let twelve = "abandon abandon abandon abandon abandon abandon abandon abandon abandon abandon abandon about";
    assert_eq!(mnemonic_to_key(twelve), Err(BlobError::InvalidMnemonic));
    assert_eq!(mnemonic_to_hash(twelve), Err(BlobError::InvalidMnemonic));
}

#[test]
fn content_address_of_known_secrets() {
    assert_eq!(entropy_to_hash(&[0u8; 32]), ZERO_ADDRESS);
    assert_eq!(
        entropy_to_hash(&counting_secret()),
        "630dcd2966c4336691125448bbb25b4ff412a49c732db2c8abc1b8581bd710dd"
    );
}

#[test]
fn content_address_is_lowercase_hex_of_64_characters() {
    let address = entropy_to_hash(&[0xabu8; 32]);
    assert_eq!(address.len(), 64);
    assert!(address.chars().all(|c| c.is_ascii_digit() || ('a'..='f').contains(&c)));
}

#[test]
fn content_address_from_mnemonic() {
    assert_eq!(mnemonic_to_hash(ZERO_PHRASE), Ok(ZERO_ADDRESS.to_string()));
    let secret = counting_secret();
    assert_eq!(
        mnemonic_to_hash(&entropy_to_mnemonic(&secret)),
        Ok(entropy_to_hash(&secret))
    );
}

#[test]
fn content_address_of_a_bad_mnemonic_fails() {
    assert_eq!(
        mnemonic_to_hash("not a mnemonic at all"),
        Err(BlobError::InvalidMnemonic)
    );
}

#[test]
fn content_address_is_the_same_each_time() {
    assert_eq!(mnemonic_to_hash(ONES_PHRASE), mnemonic_to_hash(ONES_PHRASE));
}

#[test]
fn fresh_secrets_and_nonces_differ() {
    let a = fresh_secret().expect("random source");
    let b = fresh_secret().expect("random source");
    assert_ne!(a, b);
    let m = fresh_nonce().expect("random source");
    let n = fresh_nonce().expect("random source");
    assert_ne!(m, n);
}

#[test]
fn key_is_the_entropy_as_it_stands() {
    let secret = counting_secret();
    assert_eq!(entropy_to_key(&secret), Ok(secret));
}

#[test]
fn key_of_another_length_is_refused() {
    for length in [0usize, 1, 16, 31, 33, 64] {
        assert_eq!(
            entropy_to_key(&vec![7u8; length]),
            Err(BlobError::InvalidMnemonic)
        );
    }
}

#[test]
fn failures_fall_into_three_classes() {
    assert_eq!(BlobError::InvalidMnemonic.class(), ErrorClass::InvalidRequest);
    assert_eq!(BlobError::NotFound.class(), ErrorClass::AccessDenied);
    assert_eq!(BlobError::AuthenticationFailure.class(), ErrorClass::AccessDenied);
    for e in [
        BlobError::DuplicateBlob,
        BlobError::TruncatedFrame,
        BlobError::InvalidEncoding,
        BlobError::IoFailure,
        BlobError::IllegalState,
        BlobError::SealFailure,
    ] {
        assert_eq!(e.class(), ErrorClass::Internal);
    }
}
