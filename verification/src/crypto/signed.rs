//! The signed envelope: a signature tag, a signature, the issuer's name,
//! and a payload.

use vstd::prelude::*;
use crate::bytes::{read_array, window};
use crate::error::{CytrynaError, CytrynaResult};
use crate::string::SizedCString;
use crate::FromBytes;

verus! {

/// The algorithm of a signature, as the first four bytes of a signed
/// envelope name it.
#[derive(Copy, Clone, Debug, PartialEq, Eq, Structural)]
pub enum SignatureType {
    /// RSA with a 4096-bit key over SHA-256; tag `00 01 00 03`.
    Rsa4096Sha256,
    /// RSA with a 2048-bit key over SHA-256; tag `00 01 00 04`.
    Rsa2048Sha256,
    /// ECDSA over SHA-256; tag `00 01 00 05`.
    EcdsaSha256,
}

/// The length of the issuer's name that follows every signature.
pub const ISSUER_SIZE: usize = 0x40;

impl SignatureType {
    /// The algorithm that a four-byte tag names, if it names one.
    pub open spec fn spec_from_tag(tag: Seq<u8>) -> Option<SignatureType> {
        if tag == seq![0u8, 1u8, 0u8, 3u8] {
            Some(SignatureType::Rsa4096Sha256)
        } else if tag == seq![0u8, 1u8, 0u8, 4u8] {
            Some(SignatureType::Rsa2048Sha256)
        } else if tag == seq![0u8, 1u8, 0u8, 5u8] {
            Some(SignatureType::EcdsaSha256)
        } else {
            None
        }
    }

    /// The length of a signature of this algorithm, its padding included.
    pub open spec fn spec_signature_size(self) -> int {
        match self {
            SignatureType::Rsa4096Sha256 => 0x23c,
            SignatureType::Rsa2048Sha256 => 0x13c,
            SignatureType::EcdsaSha256 => 0x7c,
        }
    }

    /// Where the payload of an envelope with this signature starts: after
    /// the tag, the signature and the issuer's name.
    pub open spec fn spec_payload_offset(self) -> int {
        4 + self.spec_signature_size() + ISSUER_SIZE as int
    }

    /// The algorithm that the first four bytes of `bytes` name.
    pub fn from_tag(bytes: &[u8]) -> (r: Option<SignatureType>)
        requires
            bytes.len() >= 4,
        ensures
            r == Self::spec_from_tag(bytes@.take(4)),
    {
        let ghost tag = bytes@.take(4);
        assert(tag.len() == 4 && tag[0] == bytes@[0] && tag[1] == bytes@[1] && tag[2] == bytes@[2]
            && tag[3] == bytes@[3]);
        if bytes[0] != 0 || bytes[1] != 1 || bytes[2] != 0 {
            assert(tag != seq![0u8, 1u8, 0u8, 3u8] && tag != seq![0u8, 1u8, 0u8, 4u8] && tag
                != seq![0u8, 1u8, 0u8, 5u8]) by {
                assert(seq![0u8, 1u8, 0u8, 3u8][0] == 0 && seq![0u8, 1u8, 0u8, 3u8][1] == 1
                    && seq![0u8, 1u8, 0u8, 3u8][2] == 0);
                assert(seq![0u8, 1u8, 0u8, 4u8][0] == 0 && seq![0u8, 1u8, 0u8, 4u8][1] == 1
                    && seq![0u8, 1u8, 0u8, 4u8][2] == 0);
                assert(seq![0u8, 1u8, 0u8, 5u8][0] == 0 && seq![0u8, 1u8, 0u8, 5u8][1] == 1
                    && seq![0u8, 1u8, 0u8, 5u8][2] == 0);
            }
            return None;
        }
        if bytes[3] == 3 {
            assert(tag =~= seq![0u8, 1u8, 0u8, 3u8]);
            Some(SignatureType::Rsa4096Sha256)
        } else if bytes[3] == 4 {
            assert(tag =~= seq![0u8, 1u8, 0u8, 4u8]);
            assert(seq![0u8, 1u8, 0u8, 3u8][3] == 3);
            Some(SignatureType::Rsa2048Sha256)
        } else if bytes[3] == 5 {
            assert(tag =~= seq![0u8, 1u8, 0u8, 5u8]);
            assert(seq![0u8, 1u8, 0u8, 3u8][3] == 3);
            assert(seq![0u8, 1u8, 0u8, 4u8][3] == 4);
            Some(SignatureType::EcdsaSha256)
        } else {
            assert(seq![0u8, 1u8, 0u8, 3u8][3] == 3);
            assert(seq![0u8, 1u8, 0u8, 4u8][3] == 4);
            assert(seq![0u8, 1u8, 0u8, 5u8][3] == 5);
            None
        }
    }

    /// The length of a signature of this algorithm, its padding included.
    pub fn signature_size(self) -> (r: usize)
        ensures
            r == self.spec_signature_size(),
    {
        match self {
            SignatureType::Rsa4096Sha256 => 0x23c,
            SignatureType::Rsa2048Sha256 => 0x13c,
            SignatureType::EcdsaSha256 => 0x7c,
        }
    }

    /// Where the payload of an envelope with this signature starts.
    pub fn payload_offset(self) -> (r: usize)
        ensures
            r == self.spec_payload_offset(),
            r == 4 + self.spec_signature_size() + 64,
    {
        4 + self.signature_size() + ISSUER_SIZE
    }
}

/// A signed envelope read over caller-owned bytes: a signature tag, the
/// signature, the issuer's name and a payload of type `T`.
#[derive(Debug)]
pub struct SignedData<'a, T: FromBytes<'a>> {
    sig_type: SignatureType,
    bytes: &'a [u8],
    data: T,
}

/// Whether `bytes` are a signed envelope around a valid `T`: the algorithm
/// of its signature if they are, and the reason if they are not.
pub open spec fn spec_signed_data<'a, T: FromBytes<'a>>(bytes: Seq<u8>) -> CytrynaResult<
    SignatureType,
> {
    if bytes.len() < 4 {
        Err(CytrynaError::SliceTooSmall)
    } else {
        match SignatureType::spec_from_tag(bytes.take(4)) {
            None => Err(CytrynaError::InvalidMagic),
            Some(ty) => if bytes.len() < ty.spec_payload_offset() + T::spec_min_size() {
                Err(CytrynaError::SliceTooSmall)
            } else {
                match T::spec_bytes_ok(bytes.skip(ty.spec_payload_offset())) {
                    Err(e) => Err(e),
                    Ok(_) => Ok(ty),
                }
            },
        }
    }
}

impl<'a, T: FromBytes<'a>> SignedData<'a, T> {
    /// The algorithm of the signature.
    pub closed spec fn spec_sig_type(&self) -> SignatureType {
        self.sig_type
    }

    /// The bytes of the whole envelope.
    pub closed spec fn raw(&self) -> Seq<u8> {
        self.bytes@
    }

    /// The payload.
    pub closed spec fn payload(&self) -> T {
        self.data
    }

    /// Whether the envelope is a reading of valid bytes: they name the
    /// algorithm, and the payload is a valid reading of what follows the
    /// issuer's name.
    pub open spec fn wf(&self) -> bool {
        &&& spec_signed_data::<T>(self.raw()) == Ok::<SignatureType, CytrynaError>(
            self.spec_sig_type(),
        )
        &&& self.payload().wf()
        &&& self.payload().raw() == self.raw().skip(
            self.spec_sig_type().spec_payload_offset(),
        )
    }

    /// Reads `bytes` as a signed envelope: the tag must name one of the
    /// three algorithms, the bytes must reach to the end of the least
    /// payload, and the payload must be valid.
    #[must_use]
    pub fn from_bytes(bytes: &'a [u8]) -> (r: CytrynaResult<SignedData<'a, T>>)
        ensures
            match r {
                Ok(signed) => signed.wf() && signed.raw() == bytes@,
                Err(e) => spec_signed_data::<T>(bytes@) == Err::<SignatureType, CytrynaError>(e),
            },
    {
        if bytes.len() < 4 {
            return Err(CytrynaError::SliceTooSmall);
        }
        let sig_type = match SignatureType::from_tag(bytes) {
            Some(ty) => ty,
            None => {
                return Err(CytrynaError::InvalidMagic);
            },
        };
        let offset = sig_type.payload_offset();
        let min_size = T::min_size();
        if bytes.len() < offset || bytes.len() - offset < min_size {
            return Err(CytrynaError::SliceTooSmall);
        }
        let rest = window(bytes, offset, bytes.len() - offset);
        assert(rest@ =~= bytes@.skip(offset as int));
        match T::bytes_ok(rest) {
            Ok(()) => {},
            Err(e) => {
                return Err(e);
            },
        }
        let data = T::cast(rest);
        Ok(SignedData { sig_type, bytes, data })
    }

    /// The payload.
    #[must_use]
    pub fn data(&self) -> (r: &T)
        ensures
            *r == self.payload(),
    {
        &self.data
    }

    /// The algorithm of the signature.
    pub fn sig_type(&self) -> (r: SignatureType)
        ensures
            r == self.spec_sig_type(),
    {
        self.sig_type
    }

    /// The signature with its padding: what stands between the tag and the
    /// issuer's name.
    pub fn signature(&self) -> (r: &'a [u8])
        requires
            self.wf(),
        ensures
            r@ == self.raw().subrange(4, 4 + self.spec_sig_type().spec_signature_size()),
    {
        window(self.bytes, 4, self.sig_type.signature_size())
    }

    /// The name of the issuer of the signature.
    pub fn issuer(&self) -> (r: SizedCString<0x40>)
        requires
            self.wf(),
        ensures
            r@ == self.raw().subrange(
                4 + self.spec_sig_type().spec_signature_size(),
                self.spec_sig_type().spec_payload_offset(),
            ),
    {
        SizedCString(read_array::<0x40>(self.bytes, 4 + self.sig_type.signature_size()))
    }
}

/// An envelope is refused with `InvalidMagic` whenever its first four bytes
/// are none of the three tags.
pub proof fn lemma_unknown_tag_is_invalid_magic<'a, T: FromBytes<'a>>(bytes: Seq<u8>)
    requires
        bytes.len() >= 4,
        bytes.take(4) != seq![0u8, 1u8, 0u8, 3u8],
        bytes.take(4) != seq![0u8, 1u8, 0u8, 4u8],
        bytes.take(4) != seq![0u8, 1u8, 0u8, 5u8],
    ensures
        spec_signed_data::<T>(bytes) == Err::<SignatureType, CytrynaError>(
            CytrynaError::InvalidMagic,
        ),
{
}

/// The payload of an envelope starts right after the four bytes of the tag,
/// the signature of the algorithm that the tag names, and the 64 bytes of
/// the issuer's name.
pub proof fn lemma_payload_offset(ty: SignatureType)
    ensures
        ty.spec_payload_offset() == 4 + ty.spec_signature_size() + 64,
        ty == SignatureType::Rsa4096Sha256 ==> ty.spec_payload_offset() == 0x280,
        ty == SignatureType::Rsa2048Sha256 ==> ty.spec_payload_offset() == 0x180,
        ty == SignatureType::EcdsaSha256 ==> ty.spec_payload_offset() == 0xc0,
{
}

} // verus!
