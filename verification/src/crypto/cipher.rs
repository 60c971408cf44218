//! AES-128 in the two modes that the formats use, and SHA-256.

use vstd::prelude::*;
use aes::cipher::block_padding::NoPadding;
use aes::cipher::{BlockDecryptMut, KeyIvInit, StreamCipher};
use crate::hash;

verus! {

/// The plaintext of `data` under AES-128 in CBC mode with the key `key` and
/// the initialization vector `iv`, for `data` of whole blocks.
pub uninterp spec fn aes128_cbc_decrypted(key: Seq<u8>, iv: Seq<u8>, data: Seq<u8>) -> Seq<u8>;

/// `data` xored with the keystream of AES-128 in CTR mode, with a 128-bit
/// big-endian counter that starts at `iv`, under the key `key`.
pub uninterp spec fn aes128_ctr_applied(key: Seq<u8>, iv: Seq<u8>, data: Seq<u8>) -> Seq<u8>;

/// `cbc::Decryptor<aes::Aes128>`, made from `key` and `iv`, decrypting
/// `data` into a new buffer without padding. It refuses data that is not a
/// whole number of 16-byte blocks and decrypts everything else, to a
/// plaintext as long as the data.
#[verifier::external_body]
pub(crate) fn aes128_cbc_decrypt(key: &[u8; 16], iv: &[u8; 16], data: &[u8]) -> (r: Option<Vec<u8>>)
    ensures
        r is Some <==> data@.len() % 16 == 0,
        r is Some ==> r->Some_0@ == aes128_cbc_decrypted(key@, iv@, data@),
        r is Some ==> r->Some_0@.len() == data@.len(),
{
    cbc::Decryptor::<aes::Aes128>::new(key.into(), iv.into())
        .decrypt_padded_vec_mut::<NoPadding>(data)
        .ok()
}

/// `ctr::Ctr128BE<aes::Aes128>`, made from `key` and `iv`, applying its
/// keystream to `input` into a new buffer of the same length. A cipher
/// fresh from its key has keystream left for any input, and the two
/// buffers are equally long, so the call succeeds.
#[verifier::external_body]
pub(crate) fn aes128_ctr_apply(key: &[u8; 16], iv: &[u8; 16], input: &[u8]) -> (r: Result<
    Vec<u8>,
    ctr::cipher::StreamCipherError,
>)
    ensures
        r is Ok,
        r->Ok_0@ == aes128_ctr_applied(key@, iv@, input@),
        r->Ok_0@.len() == input@.len(),
{
    let mut out = vec![0u8; input.len()];
    ctr::Ctr128BE::<aes::Aes128>::new(key.into(), iv.into()).apply_keystream_b2b(input, &mut out)?;
    Ok(out)
}

/// The SHA-256 digest of `data`.
pub fn sha256(data: &[u8]) -> (r: [u8; 0x20])
    ensures
        r@ == hash::sha256_digest(data@),
{
    hash::sha256(data)
}

} // verus!
