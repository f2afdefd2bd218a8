use m3u8_downloader::crypto::{decrypt_segment, encrypt_segment, segment_iv};
use m3u8_downloader::error::DownloadError;

fn key() -> Vec<u8> {
    (0u8..16).collect()
}

#[test]
fn iv_is_big_endian_position() {
    assert_eq!(segment_iv(0), vec![0u8; 16]);
    let mut one = vec![0u8; 16];
    one[15] = 1;
    assert_eq!(segment_iv(1), one);
    let mut v = vec![0u8; 16];
    v[14] = 0x01;
    v[15] = 0x02;
    assert_eq!(segment_iv(0x0102), v);
}

#[test]
fn encrypt_matches_aes128_known_answer() {
    // FIPS-197 AES-128 example; with a zero IV the first CBC block is that block.
    let pt: Vec<u8> = vec![
        0x00, 0x11, 0x22, 0x33, 0x44, 0x55, 0x66, 0x77, 0x88, 0x99, 0xaa, 0xbb, 0xcc, 0xdd, 0xee, 0xff,
    ];
    let expected: Vec<u8> = vec![
        0x69, 0xc4, 0xe0, 0xd8, 0x6a, 0x7b, 0x04, 0x30, 0xd8, 0xcd, 0xb7, 0x80, 0x70, 0xb4, 0xc5, 0x5a,
    ];
    let ct = encrypt_segment(&pt, &key(), 0).unwrap();
    assert_eq!(ct.len(), 32);
    assert_eq!(&ct[..16], &expected[..]);
}

#[test]
fn decrypt_round_trips_encrypt() {
    let data: Vec<u8> = (0..1000u32).map(|i| (i * 7 % 251) as u8).collect();
    for position in [0usize, 1, 2, 17, 4096, usize::MAX] {
        let ct = encrypt_segment(&data, &key(), position).unwrap();
        assert_ne!(ct, data);
        let pt = decrypt_segment(ct, &key(), position).unwrap();
        assert_eq!(pt, data);
    }
    let empty = encrypt_segment(&[], &key(), 3).unwrap();
    assert_eq!(empty.len(), 16);
    assert_eq!(decrypt_segment(empty, &key(), 3).unwrap(), Vec::<u8>::new());
}

#[test]
fn ciphertext_depends_on_position() {
    let data = vec![7u8; 40];
    let a = encrypt_segment(&data, &key(), 1).unwrap();
    let b = encrypt_segment(&data, &key(), 2).unwrap();
    assert_ne!(a, b);
}

#[test]
fn decrypt_rejects_wrong_key_length() {
    for len in [0usize, 1, 15, 17, 32] {
        let k = vec![1u8; len];
        assert!(matches!(decrypt_segment(vec![0u8; 32], &k, 0), Err(DownloadError::InvalidKeyLength)));
        assert!(matches!(decrypt_segment(vec![], &k, 5), Err(DownloadError::InvalidKeyLength)));
        assert!(matches!(encrypt_segment(&[1, 2], &k, 0), Err(DownloadError::InvalidKeyLength)));
    }
}

#[test]
fn decrypt_rejects_partial_block() {
    assert!(matches!(decrypt_segment(vec![0u8; 17], &key(), 0), Err(DownloadError::DecryptionError)));
    assert!(matches!(decrypt_segment(vec![0u8; 5], &key(), 0), Err(DownloadError::DecryptionError)));
    assert!(matches!(decrypt_segment(vec![], &key(), 0), Err(DownloadError::DecryptionError)));
}

#[test]
fn decrypt_rejects_bad_padding() {
    let ct = encrypt_segment(&[0u8; 16], &key(), 0).unwrap();
    // Without its padding block, the last block ends in a zero byte: no valid padding.
    let truncated = ct[..16].to_vec();
    assert!(matches!(decrypt_segment(truncated, &key(), 0), Err(DownloadError::DecryptionError)));
}
