use chain_follower::error::FollowError;
use chain_follower::weight::decode_weight;

#[test]
fn weight_is_read_lowest_byte_first() {
    assert_eq!(decode_weight(&[1, 0, 0, 0, 0, 0, 0, 0]), Ok(1));
    assert_eq!(decode_weight(&[0, 1, 0, 0, 0, 0, 0, 0]), Ok(256));
    assert_eq!(decode_weight(&[0, 0, 0, 0, 0, 0, 0, 1]), Ok(1 << 56));
    assert_eq!(
        decode_weight(&[0x08, 0x07, 0x06, 0x05, 0x04, 0x03, 0x02, 0x01]),
        Ok(0x0102_0304_0506_0708)
    );
    assert_eq!(decode_weight(&[0xff; 8]), Ok(u64::MAX));
    assert_eq!(decode_weight(&[0; 8]), Ok(0));
}

#[test]
fn bytes_after_the_weight_are_not_read() {
    assert_eq!(decode_weight(&[42, 0, 0, 0, 0, 0, 0, 0, 9, 9, 9]), Ok(42));
}

#[test]
fn too_few_bytes_hold_no_weight() {
    assert_eq!(decode_weight(&[]), Err(FollowError::DecodeFailure));
    assert_eq!(decode_weight(&[1, 2, 3, 4, 5, 6, 7]), Err(FollowError::DecodeFailure));
}
