//! Key derivation: a normal key from a KeyX, a KeyY and the generator
//! constant.

use vstd::prelude::*;
use crate::bytes::{
    lemma_u128_be_round_trip, read_u128_be, u128_be, u128_be_bytes, write_u128_be,
};
use crate::crypto::keybag::{GlobalKeyBag, KeyBag};
use crate::crypto::keyindex::KeyIndex;
use crate::error::{CytrynaError, CytrynaResult};

verus! {

/// The key derived from the numbers `x`, `y` and the generator constant
/// `generator`: `x` rotated left by 2, xored with `y`, plus the constant
/// modulo 2^128, rotated right by 41.
pub open spec fn spec_keygen_u128(x: u128, y: u128, generator: u128) -> u128 {
    let mixed = ((x << 2) | (x >> 126)) ^ y;
    let sum = add_mod_2_128(mixed, generator);
    (sum >> 41) | (sum << 87)
}

/// The sum of two 128-bit numbers modulo 2^128.
pub open spec fn add_mod_2_128(a: u128, b: u128) -> u128 {
    if a + b > u128::MAX {
        (a + b - u128::MAX - 1) as u128
    } else {
        (a + b) as u128
    }
}

/// Key derivation on numbers.
fn keygen_u128(x: u128, y: u128, generator: u128) -> (r: u128)
    ensures
        r == spec_keygen_u128(x, y, generator),
{
    let mixed = ((x << 2) | (x >> 126)) ^ y;
    let sum = mixed.wrapping_add(generator);
    (sum >> 41) | (sum << 87)
}

/// Key derivation on big-endian byte strings of sixteen bytes each.
pub open spec fn spec_keygen(x: Seq<u8>, y: Seq<u8>, generator: Seq<u8>) -> Seq<u8> {
    u128_be_bytes(spec_keygen_u128(u128_be(x), u128_be(y), u128_be(generator)))
}

/// What `keygen` gives with the keys published to a place: the derived key,
/// or the reason why none can be derived.
pub open spec fn spec_keygen_outcome(
    published: Option<KeyBag>,
    x: Seq<u8>,
    y: Seq<u8>,
) -> Result<Seq<u8>, CytrynaError> {
    match published {
        None => Err(CytrynaError::NoKeyBag),
        Some(bag) => if bag@.contains_key(KeyIndex::Generator) {
            Ok(spec_keygen(x, y, bag@[KeyIndex::Generator]))
        } else {
            Err(CytrynaError::MissingKey(KeyIndex::Generator))
        },
    }
}

/// Derives a normal key from a KeyX, a KeyY and the generator constant:
/// the sixteen bytes that store the derived number big-endian, so that the
/// key read back as a number is that number.
pub fn keygen_with(x: [u8; 16], y: [u8; 16], generator: [u8; 16]) -> (r: [u8; 16])
    ensures
        r@ == spec_keygen(x@, y@, generator@),
        u128_be(r@) == spec_keygen_u128(u128_be(x@), u128_be(y@), u128_be(generator@)),
{
    proof {
        lemma_u128_be_round_trip(
            spec_keygen_u128(u128_be(x@), u128_be(y@), u128_be(generator@)),
        );
    }
    let x = read_u128_be(&x);
    let y = read_u128_be(&y);
    let generator = read_u128_be(&generator);
    write_u128_be(keygen_u128(x, y, generator))
}

/// Derives a normal key from a KeyX and a KeyY, with the generator
/// constant of the published key store.
#[must_use]
pub fn keygen(global: &GlobalKeyBag, x: [u8; 16], y: [u8; 16]) -> (r: CytrynaResult<[u8; 16]>)
    ensures
        match r {
            Ok(key) => spec_keygen_outcome(global.published(), x@, y@) == Ok::<
                Seq<u8>,
                CytrynaError,
            >(key@),
            Err(e) => spec_keygen_outcome(global.published(), x@, y@) == Err::<
                Seq<u8>,
                CytrynaError,
            >(e),
        },
{
    let bag = match KeyBag::global(global) {
        Ok(bag) => bag,
        Err(e) => {
            return Err(e);
        },
    };
    let generator = match bag.get_key(KeyIndex::Generator) {
        Ok(key) => *key,
        Err(e) => {
            return Err(e);
        },
    };
    Ok(keygen_with(x, y, generator))
}

} // verus!
