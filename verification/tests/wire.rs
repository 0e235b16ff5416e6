use pingpong::wire::{encode_response, is_response, REQUEST_LEN, RESPONSE_LEN};

#[test]
fn response_is_the_nine_fixed_bytes() {
    let bytes = encode_response();
    assert_eq!(bytes, vec![0x2B, 0x04, 0x00, 0x00, 0x00, b'p', b'o', b'n', b'g']);
    assert_eq!(bytes.len(), RESPONSE_LEN);
    assert_eq!(REQUEST_LEN, 1);
}

#[test]
fn response_length_field_is_little_endian_four() {
    let bytes = encode_response();
    let field = [bytes[1], bytes[2], bytes[3], bytes[4]];
    assert_eq!(u32::from_le_bytes(field), 4);
    assert_eq!(&bytes[5..], b"pong");
    assert_eq!(bytes[0], b'+');
}

#[test]
fn is_response_accepts_only_the_response() {
    let good = encode_response();
    assert!(is_response(&good));
    for i in 0..good.len() {
        let mut bad = good.clone();
        bad[i] ^= 0x01;
        assert!(!is_response(&bad));
    }
    assert!(!is_response(&good[..8]));
    let mut long = good.clone();
    long.push(0);
    assert!(!is_response(&long));
    assert!(!is_response(&[]));
}
