//! The little-endian scalar codec: exact byte images and round trips.

use hpc_core::scalar::{decode_vec, encode_slice};

#[test]
fn u8_codec_is_identity() {
    let bytes = encode_slice(&[0u8, 1, 127, 255]);
    assert_eq!(bytes, vec![0, 1, 127, 255]);
    let back: Vec<u8> = decode_vec(&bytes, 4);
    assert_eq!(back, vec![0, 1, 127, 255]);
}

#[test]
fn u32_codec_little_endian() {
    let bytes = encode_slice(&[0x0403_0201u32, 0xFFFF_FFFF]);
    assert_eq!(bytes, vec![0x01, 0x02, 0x03, 0x04, 0xFF, 0xFF, 0xFF, 0xFF]);
    let back: Vec<u32> = decode_vec(&bytes, 2);
    assert_eq!(back, vec![0x0403_0201, 0xFFFF_FFFF]);
}

#[test]
fn u64_codec_little_endian() {
    let bytes = encode_slice(&[0x0807_0605_0403_0201u64]);
    assert_eq!(bytes, vec![0x01, 0x02, 0x03, 0x04, 0x05, 0x06, 0x07, 0x08]);
    let back: Vec<u64> = decode_vec(&bytes, 1);
    assert_eq!(back, vec![0x0807_0605_0403_0201]);
}

#[test]
fn i32_codec_two_complement() {
    let bytes = encode_slice(&[-1i32, 5]);
    assert_eq!(bytes, vec![0xFF, 0xFF, 0xFF, 0xFF, 0x05, 0x00, 0x00, 0x00]);
    let back: Vec<i32> = decode_vec(&bytes, 2);
    assert_eq!(back, vec![-1, 5]);
}

#[test]
fn empty_codec() {
    let bytes = encode_slice::<u32>(&[]);
    assert_eq!(bytes, Vec::<u8>::new());
    let back: Vec<u32> = decode_vec(&bytes, 0);
    assert_eq!(back, Vec::<u32>::new());
}
