//! Reading and unwrapping the container formats of a handheld game
//! console's software: the installable package with its certificate
//! chain, ticket, title metadata and contents; the executable container
//! with its extended header and mini filesystem; the signed envelope and
//! the key store that both rest on; and around them the boot firmware
//! image, the homebrew executable, and the icon and title data.
//!
//! Every structure is read over caller-owned bytes after its length and
//! its magic have been checked; what is encrypted is decrypted into a
//! buffer of its own, and what is not is borrowed.

pub mod bytes;
pub mod cia;
pub mod crypto;
pub mod error;
pub mod firm;
pub mod hash;
pub mod hb3dsx;
pub mod ncch;
pub mod prelude;
pub mod smdh;
pub mod string;
pub mod ticket;
pub mod titleid;
pub mod tmd;

pub use crate::error::{CytrynaError, CytrynaResult};

use vstd::prelude::*;

verus! {

/// What a structure of the console's formats must say of itself before a
/// run of bytes is read as one: how long it is at least, and what makes its
/// bytes valid. The two are kept apart: `bytes_ok` validates, `from_bytes`
/// compares the length with `min_size`, and only then `cast` reads.
pub trait FromBytes<'a>: Sized {
    /// The least number of bytes that a valid structure has.
    spec fn spec_min_size() -> nat;

    /// Whether `bytes` are a valid structure of this type, and if not, why.
    spec fn spec_bytes_ok(bytes: Seq<u8>) -> CytrynaResult<()>;

    /// Whether the hashes stored in `bytes` are those of the data they
    /// cover. A type that stores no hash says `true`.
    spec fn spec_hash_ok(bytes: Seq<u8>) -> bool;

    /// The bytes that the value is a reading of.
    spec fn raw(&self) -> Seq<u8>;

    /// Whether the value is a reading of valid bytes.
    spec fn wf(&self) -> bool;

    /// The least number of bytes that a valid structure has.
    fn min_size() -> (r: usize)
        ensures
            r == Self::spec_min_size(),
    ;

    /// Checks what has to be checked, apart from the length, before `bytes`
    /// may be read as `Self`: the magic or the fields that every valid
    /// structure agrees on. Bytes too short to hold what is checked are
    /// refused with `SliceTooSmall`.
    fn bytes_ok(bytes: &[u8]) -> (r: CytrynaResult<()>)
        ensures
            r == Self::spec_bytes_ok(bytes@),
    ;

    /// Reads valid bytes of at least the least length as `Self`, without
    /// copying them.
    fn cast(bytes: &'a [u8]) -> (r: Self)
        requires
            Self::spec_bytes_ok(bytes@) is Ok,
            bytes@.len() >= Self::spec_min_size(),
        ensures
            r.wf(),
            r.raw() == bytes@,
    ;

    /// Whether the hashes stored in the structure are those of the data
    /// they cover.
    fn hash_ok(&self) -> (r: bool)
        requires
            self.wf(),
        ensures
            r == Self::spec_hash_ok(self.raw()),
    ;

    /// Validates `bytes`, reads them as `Self`, and checks the hashes:
    /// invalid bytes are refused for their own reason, valid bytes shorter
    /// than the least length with `SliceTooSmall`, and valid bytes with a
    /// wrong hash with `InvalidHash`.
    fn from_bytes(bytes: &'a [u8]) -> (r: CytrynaResult<Self>)
        ensures
            match r {
                Ok(v) => {
                    &&& Self::spec_bytes_ok(bytes@) is Ok
                    &&& bytes@.len() >= Self::spec_min_size()
                    &&& Self::spec_hash_ok(bytes@)
                    &&& v.wf()
                    &&& v.raw() == bytes@
                },
                Err(e) => match Self::spec_bytes_ok(bytes@) {
                    Err(why) => e == why,
                    Ok(_) => if bytes@.len() < Self::spec_min_size() {
                        e == CytrynaError::SliceTooSmall
                    } else {
                        !Self::spec_hash_ok(bytes@) && e == CytrynaError::InvalidHash
                    },
                },
            },
    {
        match Self::bytes_ok(bytes) {
            Ok(()) => {},
            Err(e) => {
                return Err(e);
            },
        }
        if bytes.len() < Self::min_size() {
            return Err(CytrynaError::SliceTooSmall);
        }
        let ret = Self::cast(bytes);
        if ret.hash_ok() {
            Ok(ret)
        } else {
            Err(CytrynaError::InvalidHash)
        }
    }
}

/// `val` rounded up to the next multiple of `alignment`.
pub open spec fn spec_align_up(val: int, alignment: int) -> int {
    if val % alignment != 0 {
        val + (alignment - val % alignment)
    } else {
        val
    }
}

/// `val` rounded up to the next multiple of `alignment`: the least
/// multiple of `alignment` that is not below `val`.
pub fn align_up(val: u32, alignment: u32) -> (r: u32)
    requires
        alignment != 0,
        spec_align_up(val as int, alignment as int) <= u32::MAX,
    ensures
        r == spec_align_up(val as int, alignment as int),
        r % alignment == 0,
        val <= r < val + alignment,
{
    proof {
        lemma_align_up_is_least_multiple(val as int, alignment as int);
    }
    if val % alignment != 0 {
        val + (alignment - (val % alignment))
    } else {
        val
    }
}

/// Rounding up gives the least multiple of the alignment that is not below
/// the value.
pub proof fn lemma_align_up_is_least_multiple(val: int, alignment: int)
    requires
        0 <= val,
        0 < alignment,
    ensures
        spec_align_up(val, alignment) % alignment == 0,
        val <= spec_align_up(val, alignment) < val + alignment,
        val % alignment == 0 ==> spec_align_up(val, alignment) == val,
{
    let r = val % alignment;
    if r != 0 {
        assert((val + (alignment - r)) % alignment == 0) by (nonlinear_arith)
            requires
                0 < alignment,
                r == val % alignment,
        ;
    }
}

/// A value that is either owned or borrowed: what a function returns that
/// decrypts on some inputs and only looks on others.
#[derive(Debug)]
pub enum OwnedOrBorrowed<'a, T> {
    Owned(Box<T>),
    Borrowed(&'a T),
}

impl<'a, T> OwnedOrBorrowed<'a, T> {
    /// The value, whoever owns it.
    pub open spec fn value(&self) -> T {
        match self {
            OwnedOrBorrowed::Owned(data) => **data,
            OwnedOrBorrowed::Borrowed(data) => **data,
        }
    }

    /// The value, whoever owns it.
    pub fn deref(&self) -> (r: &T)
        ensures
            *r == self.value(),
    {
        match self {
            OwnedOrBorrowed::Owned(data) => &**data,
            OwnedOrBorrowed::Borrowed(data) => *data,
        }
    }
}

/// A run of items that is either an owned `Vec` or a borrowed slice.
#[derive(Debug)]
pub enum VecOrSlice<'a, T> {
    V(Vec<T>),
    S(&'a [T]),
}

impl<'a, T> View for VecOrSlice<'a, T> {
    type V = Seq<T>;

    open spec fn view(&self) -> Seq<T> {
        match self {
            VecOrSlice::V(vec) => vec@,
            VecOrSlice::S(slice) => slice@,
        }
    }
}

impl<'a, T> VecOrSlice<'a, T> {
    /// The items as a slice.
    pub fn as_slice(&self) -> (r: &[T])
        ensures
            r@ == self@,
    {
        match self {
            VecOrSlice::V(vec) => vec.as_slice(),
            VecOrSlice::S(slice) => slice,
        }
    }
}

} // verus!
