use dmx_rdm::rdm_data::{
    decode_disc_unique, deserialize_discovery_response, encode_disc_unique,
    encode_discovery_response,
};
use dmx_rdm::unique_identifier::UniqueIdentifier;

#[test]
fn discovery_response_has_the_documented_layout() {
    let uid = UniqueIdentifier::new(0x1234, 0x56789ABC).unwrap();
    let frame = encode_discovery_response(&uid);

    // Seven preamble bytes and the separator.
    assert_eq!(&frame[..8], &[0xFE, 0xFE, 0xFE, 0xFE, 0xFE, 0xFE, 0xFE, 0xAA]);
    // Each identity byte as the pair (b | 0xAA, b | 0x55).
    assert_eq!(
        &frame[8..20],
        &[0xBA, 0x57, 0xBE, 0x75, 0xFE, 0x57, 0xFA, 0x7D, 0xBA, 0xDF, 0xBE, 0xFD]
    );
    // The checksum of the twelve encoded bytes is 0x0864, encoded the same way.
    assert_eq!(&frame[20..24], &[0xAA, 0x5D, 0xEE, 0x75]);
}

#[test]
fn discovery_response_round_trips() {
    let uid = UniqueIdentifier::new(0x1234, 0x56789ABC).unwrap();
    let frame = encode_discovery_response(&uid);
    assert_eq!(deserialize_discovery_response(&frame).unwrap(), uid);

    let low = UniqueIdentifier::new(0x0001, 0x00000001).unwrap();
    let frame = encode_discovery_response(&low);
    assert_eq!(deserialize_discovery_response(&frame).unwrap(), low);
}

#[test]
fn any_flip_past_the_preamble_breaks_the_response() {
    let uid = UniqueIdentifier::new(0x7FF0, 0x00000001).unwrap();
    let frame = encode_discovery_response(&uid);
    for index in 7..24 {
        let mut corrupted = frame.clone();
        corrupted[index] ^= 0x10;
        assert!(
            deserialize_discovery_response(&corrupted).is_err(),
            "flip at {} must break decoding",
            index
        );
    }
}

#[test]
fn short_and_separatorless_responses_are_rejected() {
    // No separator byte at all.
    deserialize_discovery_response(&[0xFE; 24]).unwrap_err();
    // Too few bytes after the separator.
    deserialize_discovery_response(&[0xFE, 0xAA, 0x00, 0x00]).unwrap_err();
}

#[test]
fn bit_encoding_round_trips_and_flags_broken_pairs() {
    let payload = [0x00, 0x55, 0xAA, 0xFF, 0x12];
    let encoded = encode_disc_unique(&payload);
    assert_eq!(encoded.len(), 10);
    let (decoded, intact) = decode_disc_unique(&encoded);
    assert!(intact);
    assert_eq!(decoded, payload.to_vec());

    // 0x00 cannot be the first byte of an intact pair.
    let (_, intact) = decode_disc_unique(&[0x00, 0x55]);
    assert!(!intact);
}
