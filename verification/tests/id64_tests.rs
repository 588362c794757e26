use peerctl::id64::Id64;
use peerctl::id64::TryFromStrError;

#[test]
fn round_trip_zero() {
    let id = Id64::from_u64(0);
    let text = id.encode();
    assert_eq!(text, b"AAAAAAAAAAA".to_vec());
    assert_eq!(Id64::decode(&text), Ok(id));
}

#[test]
fn round_trip_max() {
    let id = Id64::from_u64(u64::MAX);
    let text = id.encode();
    assert_eq!(text, b"__________8".to_vec());
    assert_eq!(Id64::decode(&text), Ok(id));
}

#[test]
fn round_trip_known_bytes() {
    let id = Id64::from_bytes([1, 2, 3, 4, 5, 6, 7, 8]);
    let text = id.encode();
    assert_eq!(text, b"AQIDBAUGBwg".to_vec());
    let back = Id64::decode(&text).unwrap();
    assert_eq!(back.as_bytes(), [1, 2, 3, 4, 5, 6, 7, 8]);
    assert_eq!(back, id);
}

#[test]
fn round_trip_assorted_values() {
    for &v in &[
        1u64,
        0x0123_4567_89ab_cdef,
        0x8000_0000_0000_0000,
        0xdead_beef_cafe_f00d,
        42,
    ] {
        let id = Id64::from_u64(v);
        let back = Id64::decode(&id.encode()).unwrap();
        assert_eq!(back.as_u64(), v);
    }
}

#[test]
fn round_trip_random_ids() {
    for _ in 0..64 {
        let id = Id64::random();
        assert_eq!(Id64::decode(&id.encode()), Ok(id));
    }
}

#[test]
fn from_rng_round_trips_too() {
    let mut rng = rand::rng();
    for _ in 0..16 {
        let id = Id64::from_rng(&mut rng);
        assert_eq!(Id64::decode(&id.encode()), Ok(id));
    }
}

#[test]
fn decode_rejects_foreign_characters() {
    assert_eq!(
        Id64::decode(b"invalid!since"),
        Err(TryFromStrError::InvalidEncoding)
    );
    assert_eq!(
        Id64::decode(b"AAAAAAAAAA+"),
        Err(TryFromStrError::InvalidEncoding)
    );
    assert_eq!(
        Id64::decode(b"AAAAAAAAAA="),
        Err(TryFromStrError::InvalidEncoding)
    );
}

#[test]
fn decode_rejects_impossible_length_shape() {
    // A length of one more than a multiple of four can encode no byte
    // sequence at all.
    assert_eq!(
        Id64::decode(b"AAAAA"),
        Err(TryFromStrError::InvalidEncoding)
    );
}

#[test]
fn decode_rejects_nonzero_trailing_bits() {
    // `B` carries value 1: its low bits would have to spill into a byte
    // that is not there.
    assert_eq!(Id64::decode(b"AB"), Err(TryFromStrError::InvalidEncoding));
    assert_eq!(
        Id64::decode(b"AAAAAAAAAAB"),
        Err(TryFromStrError::InvalidEncoding)
    );
}

#[test]
fn decode_rejects_wrong_payload_length() {
    // Well-formed encodings of 3 bytes and of 1 byte: not 8 bytes.
    assert_eq!(Id64::decode(b"AAAA"), Err(TryFromStrError::InvalidLength));
    assert_eq!(Id64::decode(b"AQ"), Err(TryFromStrError::InvalidLength));
    assert_eq!(Id64::decode(b""), Err(TryFromStrError::InvalidLength));
    assert_eq!(
        Id64::decode(b"AAAAAAAAAAAAAAAA"),
        Err(TryFromStrError::InvalidLength)
    );
}

#[test]
fn decode_full_width_trailing_character() {
    // `E` carries value 4, whose low two bits are zero: a canonical
    // final character decoding to the top byte 0x01.
    let id = Id64::decode(b"AAAAAAAAAAE").unwrap();
    assert_eq!(id.as_u64(), 1u64 << 56);
}

#[test]
fn byte_conversions_agree() {
    let id = Id64::from_u64(0x0807_0605_0403_0201);
    assert_eq!(id.as_bytes(), [1, 2, 3, 4, 5, 6, 7, 8]);
    assert_eq!(Id64::from_bytes(id.as_bytes()), id);
}
