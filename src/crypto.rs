//! Segment decryption: AES-128 in CBC mode with PKCS#7 padding, the IV derived
//! from the segment's position alone.

use vstd::prelude::*;
use aes::cipher::{BlockDecryptMut, BlockEncryptMut, KeyIvInit};
use crate::error::DownloadError;

verus! {

/// Length of an AES-128 key, and of the IV, in bytes.
pub const KEY_LEN: usize = 16;

/// Plaintext that AES-128-CBC with PKCS#7 unpadding yields for `data` under
/// `key` and `iv`; `None` when the length or the padding is invalid.
pub uninterp spec fn aes128_cbc_pkcs7_decrypt(key: Seq<u8>, iv: Seq<u8>, data: Seq<u8>) -> Option<Seq<u8>>;

/// Ciphertext that AES-128-CBC with PKCS#7 padding yields for `data` under `key` and `iv`.
pub uninterp spec fn aes128_cbc_pkcs7_encrypt(key: Seq<u8>, iv: Seq<u8>, data: Seq<u8>) -> Seq<u8>;

/// The `len` low-order bytes of `n`, most significant first.
pub open spec fn be_bytes(n: nat, len: nat) -> Seq<u8>
    decreases len,
{
    if len == 0 {
        Seq::empty()
    } else {
        be_bytes(n / 256, (len - 1) as nat).push((n % 256) as u8)
    }
}

/// The IV of the segment at `position`: the position as a 16-byte big-endian integer.
pub open spec fn position_iv(position: nat) -> Seq<u8> {
    be_bytes(position, 16)
}

/// What decrypting `data` with `key` at `position` yields, for a 16-byte key.
pub open spec fn segment_plaintext(data: Seq<u8>, key: Seq<u8>, position: nat) -> Option<Seq<u8>> {
    aes128_cbc_pkcs7_decrypt(key, position_iv(position), data)
}

/// Relies on `cbc::Decryptor::<aes::Aes128>::new_from_slices` and
/// `decrypt_padded_vec_mut::<Pkcs7>`: decryption is a function of key, IV and
/// data, and fails when the data is not a whole number of 16-byte blocks.
#[verifier::external_body]
fn aes128_cbc_decrypt(key: &[u8], iv: &[u8], data: &[u8]) -> (r: Option<Vec<u8>>)
    requires
        key@.len() == 16,
        iv@.len() == 16,
    ensures
        match r {
            Some(p) => aes128_cbc_pkcs7_decrypt(key@, iv@, data@) == Some(p@),
            None => aes128_cbc_pkcs7_decrypt(key@, iv@, data@) is None,
        },
        data@.len() % 16 != 0 ==> r is None,
{
    match cbc::Decryptor::<aes::Aes128>::new_from_slices(key, iv) {
        Ok(dec) => dec.decrypt_padded_vec_mut::<aes::cipher::block_padding::Pkcs7>(data).ok(),
        Err(_) => None,
    }
}

/// Relies on `cbc::Encryptor::<aes::Aes128>::new_from_slices` and
/// `encrypt_padded_vec_mut::<Pkcs7>`: encryption is a function of key, IV and
/// data, and the matching decryption gives the data back.
#[verifier::external_body]
fn aes128_cbc_encrypt(key: &[u8], iv: &[u8], data: &[u8]) -> (r: Vec<u8>)
    requires
        key@.len() == 16,
        iv@.len() == 16,
    ensures
        r@ == aes128_cbc_pkcs7_encrypt(key@, iv@, data@),
        aes128_cbc_pkcs7_decrypt(key@, iv@, r@) == Some(data@),
{
    let enc = cbc::Encryptor::<aes::Aes128>::new_from_slices(key, iv).expect("16-byte key and IV");
    enc.encrypt_padded_vec_mut::<aes::cipher::block_padding::Pkcs7>(data)
}

/// The `len` low-order bytes of `n`, most significant first.
pub fn be_bytes_of(n: usize, len: usize) -> (r: Vec<u8>)
    ensures
        r@ == be_bytes(n as nat, len as nat),
    decreases len,
{
    if len == 0 {
        Vec::new()
    } else {
        let mut v = be_bytes_of(n / 256, len - 1);
        v.push((n % 256) as u8);
        v
    }
}

/// The IV of the segment at `position`.
pub fn segment_iv(position: usize) -> (r: Vec<u8>)
    ensures
        r@ == position_iv(position as nat),
        r@.len() == 16,
{
    let r = be_bytes_of(position, KEY_LEN);
    proof {
        lemma_be_bytes_len(position as nat, 16);
    }
    r
}

proof fn lemma_be_bytes_len(n: nat, len: nat)
    ensures
        be_bytes(n, len).len() == len,
    decreases len,
{
    if len > 0 {
        lemma_be_bytes_len(n / 256, (len - 1) as nat);
    }
}

/// Decrypts the segment at `segment_index`. A key that is not 16 bytes long
/// fails with `InvalidKeyLength`, whatever the data; otherwise the result is
/// the plaintext, or `DecryptionError` when the length or padding is invalid.
pub fn decrypt_segment(data: Vec<u8>, key: &[u8], segment_index: usize) -> (r: Result<Vec<u8>, DownloadError>)
    ensures
        key@.len() != 16 ==> r matches Err(DownloadError::InvalidKeyLength),
        key@.len() == 16 ==> match segment_plaintext(data@, key@, segment_index as nat) {
            Some(p) => (r matches Ok(v) && v@ == p),
            None => r matches Err(DownloadError::DecryptionError),
        },
        key@.len() == 16 && data@.len() % 16 != 0 ==> r matches Err(DownloadError::DecryptionError),
{
    if key.len() != KEY_LEN {
        return Err(DownloadError::InvalidKeyLength);
    }
    let iv = segment_iv(segment_index);
    match aes128_cbc_decrypt(key, iv.as_slice(), data.as_slice()) {
        Some(p) => Ok(p),
        None => Err(DownloadError::DecryptionError),
    }
}

/// Encrypts `data` as the segment at `position`, the inverse of
/// `decrypt_segment`: for a 16-byte key, decrypting the result with the same
/// key at the same position gives `data` back.
pub fn encrypt_segment(data: &[u8], key: &[u8], position: usize) -> (r: Result<Vec<u8>, DownloadError>)
    ensures
        key@.len() != 16 ==> r matches Err(DownloadError::InvalidKeyLength),
        key@.len() == 16 ==> (r matches Ok(c) && c@ == aes128_cbc_pkcs7_encrypt(
            key@,
            position_iv(position as nat),
            data@,
        ) && segment_plaintext(c@, key@, position as nat) == Some(data@)),
{
    if key.len() != KEY_LEN {
        return Err(DownloadError::InvalidKeyLength);
    }
    let iv = segment_iv(position);
    Ok(aes128_cbc_encrypt(key, iv.as_slice(), data))
}

} // verus!
