//! The boot firmware image: a header with up to four section headers and
//! a signature, and after it the sections.

use vstd::prelude::*;
use crate::bytes::{
    push_bytes, push_u32_le, push_zeros, read_array, read_u32_le, same_bytes, u32_le_at,
    u32_le_bytes, window, zeros,
};
use crate::error::{CytrynaError, CytrynaResult};
use crate::hash::{sha256, sha256_digest};
use crate::string::SizedCString;
use crate::{spec_align_up, FromBytes};

verus! {

/// The length of the header.
pub const FIRM_HEADER_SIZE: usize = 0x200;

/// The signature that the boot ROM accepts for any firmware booted from
/// the internal storage of a retail console.
pub const RETAIL_NAND_FIRM: [u8; 0x100] = [
    0xb6, 0x72, 0x45, 0x31, 0xc4, 0x48, 0x65, 0x7a, 0x2a, 0x2e, 0xe3, 0x06, 0x45, 0x7e, 0x35, 0x0a,
    0x10, 0xd5, 0x44, 0xb4, 0x28, 0x59, 0xb0, 0xe5, 0xb0, 0xbe, 0xd2, 0x75, 0x34, 0xcc, 0xcc, 0x2a,
    0x4d, 0x47, 0xed, 0xea, 0x60, 0xa7, 0xdd, 0x99, 0x93, 0x99, 0x50, 0xa6, 0x35, 0x7b, 0x1e, 0x35,
    0xdf, 0xc7, 0xfa, 0xc7, 0x73, 0xb7, 0xe1, 0x2e, 0x7c, 0x14, 0x81, 0x23, 0x4a, 0xf1, 0x41, 0xb3,
    0x1c, 0xf0, 0x8e, 0x9f, 0x62, 0x29, 0x3a, 0xa6, 0xba, 0xae, 0x24, 0x6c, 0x15, 0x09, 0x5f, 0x8b,
    0x78, 0x40, 0x2a, 0x68, 0x4d, 0x85, 0x2c, 0x68, 0x05, 0x49, 0xfa, 0x5b, 0x3f, 0x14, 0xd9, 0xe8,
    0x38, 0xa2, 0xfb, 0x9c, 0x09, 0xa1, 0x5a, 0xbb, 0x40, 0xdc, 0xa2, 0x5e, 0x40, 0xa3, 0xdd, 0xc1,
    0xf5, 0x8e, 0x79, 0xce, 0xc9, 0x01, 0x97, 0x43, 0x63, 0xa9, 0x46, 0xe9, 0x9b, 0x43, 0x46, 0xe8,
    0xa3, 0x72, 0xb6, 0xcd, 0x55, 0xa7, 0x07, 0xe1, 0xea, 0xb9, 0xbe, 0xc0, 0x20, 0x0b, 0x5b, 0xa0,
    0xb6, 0x61, 0x23, 0x6a, 0x87, 0x08, 0xd7, 0x04, 0x51, 0x7f, 0x43, 0xc6, 0xc3, 0x8e, 0xe9, 0x56,
    0x01, 0x11, 0xe1, 0x40, 0x5e, 0x5e, 0x8e, 0xd3, 0x56, 0xc4, 0x9c, 0x4f, 0xf6, 0x82, 0x3d, 0x12,
    0x19, 0xaf, 0xae, 0xeb, 0x3d, 0xf3, 0xc3, 0x6b, 0x62, 0xbb, 0xa8, 0x8f, 0xc1, 0x5b, 0xa8, 0x64,
    0x8f, 0x93, 0x33, 0xfd, 0x9f, 0xc0, 0x92, 0xb8, 0x14, 0x6c, 0x3d, 0x90, 0x8f, 0x73, 0x15, 0x5d,
    0x48, 0xbe, 0x89, 0xd7, 0x26, 0x12, 0xe1, 0x8e, 0x4a, 0xa8, 0xeb, 0x9b, 0x7f, 0xd2, 0xa5, 0xf7,
    0x32, 0x8c, 0x4e, 0xcb, 0xfb, 0x00, 0x83, 0x83, 0x3c, 0xbd, 0x5c, 0x98, 0x3a, 0x25, 0xce, 0xb8,
    0xb9, 0x41, 0xcc, 0x68, 0xeb, 0x01, 0x7c, 0xe8, 0x7f, 0x5d, 0x79, 0x3a, 0xca, 0x09, 0xac, 0xf7,
];

/// The signature that the boot ROM accepts for any firmware booted from a
/// game card or over SPI on a retail console.
pub const RETAIL_NTR_FIRM: [u8; 0x100] = [
    0x37, 0xe9, 0x6b, 0x10, 0xba, 0xf2, 0x8c, 0x74, 0xa7, 0x10, 0xef, 0x35, 0x82, 0x4c, 0x93, 0xf5,
    0xfb, 0xb3, 0x41, 0xce, 0xe4, 0xfb, 0x44, 0x6c, 0xe4, 0xd2, 0x90, 0xab, 0xfc, 0xef, 0xac, 0xb0,
    0x63, 0xa9, 0xb5, 0x5b, 0x3e, 0x8a, 0x65, 0x51, 0x1d, 0x90, 0x0c, 0x5a, 0x6e, 0x94, 0x03, 0xaa,
    0xb5, 0x94, 0x3c, 0xef, 0x3a, 0x1e, 0x88, 0x2b, 0x77, 0xd2, 0x34, 0x79, 0x42, 0xb9, 0xe9, 0xeb,
    0x0d, 0x75, 0x66, 0x37, 0x0f, 0x0c, 0xb7, 0x31, 0x0c, 0x38, 0xcb, 0x4a, 0xc9, 0x40, 0xd1, 0xa6,
    0xbb, 0x47, 0x6b, 0xcc, 0x2c, 0x48, 0x7d, 0x1c, 0x53, 0x21, 0x20, 0xf1, 0xd2, 0xa3, 0x7d, 0xdb,
    0x3e, 0x36, 0xf8, 0xa2, 0x94, 0x5b, 0xd8, 0xb1, 0x6f, 0xb3, 0x54, 0x98, 0x03, 0x84, 0x99, 0x8e,
    0xcc, 0x38, 0x0c, 0xd5, 0xcf, 0x85, 0x30, 0xf1, 0xda, 0xd2, 0xfd, 0x74, 0xba, 0x35, 0xac, 0xb9,
    0xc9, 0xda, 0x2c, 0x13, 0x1c, 0xb2, 0x95, 0x73, 0x6a, 0xe7, 0xef, 0xa0, 0xd2, 0x68, 0xee, 0x01,
    0x87, 0x2e, 0xf0, 0x33, 0x05, 0x8a, 0xba, 0x07, 0xb5, 0xc6, 0x84, 0xea, 0xd6, 0x0d, 0x76, 0xea,
    0x84, 0xa1, 0x8d, 0x86, 0x63, 0x07, 0xaa, 0xaa, 0xb7, 0x64, 0x78, 0x6e, 0x39, 0x6f, 0x2f, 0x8b,
    0x63, 0x0e, 0x60, 0xe3, 0x0e, 0x3f, 0x1c, 0xd8, 0xa6, 0x7d, 0x02, 0xf0, 0xa8, 0x81, 0x52, 0xde,
    0x7a, 0x9e, 0x0d, 0xd5, 0xe6, 0x4a, 0xb7, 0x59, 0x3a, 0x37, 0x01, 0xe4, 0x84, 0x6b, 0x6f, 0x33,
    0x8d, 0x22, 0xfd, 0x45, 0x5d, 0x45, 0xdf, 0x21, 0x2c, 0x55, 0x77, 0x26, 0x6a, 0xa8, 0xc3, 0x67,
    0xae, 0x6e, 0x4c, 0xe8, 0x9d, 0xf4, 0x16, 0x91, 0xbf, 0x1f, 0x7f, 0xe5, 0x8f, 0x22, 0x61, 0xf5,
    0xd2, 0x51, 0xdf, 0x36, 0xde, 0x9f, 0x5a, 0xf1, 0xf3, 0x68, 0xe6, 0x50, 0xd5, 0x76, 0x81, 0x0b,
];

/// How a section is copied to where it runs.
#[derive(Debug, Clone, Copy, PartialEq, Eq, Structural)]
pub enum CopyMethod {
    /// NDMA
    Ndma,
    /// XDMA
    Xdma,
    /// By the processor itself.
    CpuMemcpy,
}

impl CopyMethod {
    /// The number that stands for the method.
    pub open spec fn spec_code(self) -> u32 {
        match self {
            CopyMethod::Ndma => 0,
            CopyMethod::Xdma => 1,
            CopyMethod::CpuMemcpy => 2,
        }
    }

    /// The number that stands for the method.
    pub fn code(self) -> (r: u32)
        ensures
            r == self.spec_code(),
    {
        match self {
            CopyMethod::Ndma => 0,
            CopyMethod::Xdma => 1,
            CopyMethod::CpuMemcpy => 2,
        }
    }

    /// The method that a number stands for, if it stands for one.
    pub fn from_code(code: u32) -> (r: Option<CopyMethod>)
        ensures
            match r {
                Some(method) => method.spec_code() == code,
                None => code > 2,
            },
    {
        if code == 0 {
            Some(CopyMethod::Ndma)
        } else if code == 1 {
            Some(CopyMethod::Xdma)
        } else if code == 2 {
            Some(CopyMethod::CpuMemcpy)
        } else {
            None
        }
    }
}

/// The header of one section.
#[derive(Debug, Clone, Copy)]
pub struct SectionHeader {
    offset: u32,
    phys_addr: u32,
    size: u32,
    copy_method: CopyMethod,
    hash: [u8; 0x20],
}

impl SectionHeader {
    /// Where the section starts in the image.
    pub closed spec fn spec_offset(&self) -> u32 {
        self.offset
    }

    /// The address that the section is loaded to.
    pub closed spec fn spec_load_addr(&self) -> u32 {
        self.phys_addr
    }

    /// The length in bytes.
    pub closed spec fn spec_size(&self) -> u32 {
        self.size
    }

    /// How the section is copied.
    pub closed spec fn spec_copy_method(&self) -> CopyMethod {
        self.copy_method
    }

    /// The SHA-256 hash.
    pub closed spec fn spec_hash(&self) -> Seq<u8> {
        self.hash@
    }

    /// Whether the header is what the 0x30 bytes at `at` say: the offset of
    /// the section in the image, the address it is loaded to, its size and
    /// its copy method, little-endian, and its SHA-256 hash.
    pub open spec fn is_record(&self, bytes: Seq<u8>, at: int) -> bool {
        &&& self.spec_offset() == u32_le_at(bytes, at)
        &&& self.spec_load_addr() == u32_le_at(bytes, at + 4)
        &&& self.spec_size() == u32_le_at(bytes, at + 8)
        &&& self.spec_copy_method().spec_code() == u32_le_at(bytes, at + 0xc)
        &&& self.spec_hash() == bytes.subrange(at + 0x10, at + 0x30)
    }

    /// Whether the header stands for no section: every field is zero.
    pub open spec fn spec_is_empty(&self) -> bool {
        &&& self.spec_offset() == 0
        &&& self.spec_load_addr() == 0
        &&& self.spec_size() == 0
        &&& self.spec_copy_method() == CopyMethod::Ndma
        &&& self.spec_hash() == Seq::new(0x20, |i: int| 0u8)
    }

    fn read(bytes: &[u8], at: usize) -> (r: SectionHeader)
        requires
            at + 0x30 <= bytes.len(),
            u32_le_at(bytes@, at + 0xc) <= 2,
        ensures
            r.is_record(bytes@, at as int),
    {
        let copy_method = match CopyMethod::from_code(read_u32_le(bytes, at + 0xc)) {
            Some(method) => method,
            None => vstd::pervasive::unreached(),
        };
        SectionHeader {
            offset: read_u32_le(bytes, at),
            phys_addr: read_u32_le(bytes, at + 4),
            size: read_u32_le(bytes, at + 8),
            copy_method,
            hash: read_array::<0x20>(bytes, at + 0x10),
        }
    }

    /// The header that stands for no section.
    pub fn empty() -> (r: SectionHeader)
        ensures
            r.spec_is_empty(),
    {
        let r = SectionHeader {
            offset: 0,
            phys_addr: 0,
            size: 0,
            copy_method: CopyMethod::Ndma,
            hash: [0u8; 0x20],
        };
        assert(r.spec_hash() =~= Seq::new(0x20, |i: int| 0u8));
        r
    }

    /// Where the section starts in the image.
    #[must_use]
    pub fn offset(&self) -> (r: u32)
        ensures
            r == self.spec_offset(),
    {
        self.offset
    }

    /// The address that the section is loaded to.
    #[must_use]
    pub fn load_addr(&self) -> (r: u32)
        ensures
            r == self.spec_load_addr(),
    {
        self.phys_addr
    }

    /// The length of the section.
    #[must_use]
    pub fn size(&self) -> (r: u32)
        ensures
            r == self.spec_size(),
    {
        self.size
    }

    /// How the section is copied.
    #[must_use]
    pub fn copy_method(&self) -> (r: CopyMethod)
        ensures
            r == self.spec_copy_method(),
    {
        self.copy_method
    }

    /// The SHA-256 hash of the section.
    #[must_use]
    pub fn hash(&self) -> (r: &[u8; 0x20])
        ensures
            r@ == self.spec_hash(),
    {
        &self.hash
    }
}

/// The first `n` section headers that stand for sections, in their order: a
/// header with size zero stands for none.
pub open spec fn spec_sections_used(headers: Seq<SectionHeader>, n: int) -> Seq<SectionHeader>
    decreases n,
{
    if n <= 0 {
        Seq::empty()
    } else if headers[n - 1].spec_size() == 0 {
        spec_sections_used(headers, n - 1)
    } else {
        spec_sections_used(headers, n - 1).push(headers[n - 1])
    }
}

/// The header of a firmware image.
#[derive(Debug, Clone, Copy)]
pub struct FirmHeader {
    magic: SizedCString<4>,
    boot_priority: u32,
    arm11_entrypoint: u32,
    arm9_entrypoint: u32,
    firmware_section_headers: [SectionHeader; 4],
    rsa2048_sig: [u8; 0x100],
}

impl FirmHeader {
    /// The magic.
    pub closed spec fn spec_magic(&self) -> Seq<u8> {
        self.magic@
    }

    /// The boot priority.
    pub closed spec fn spec_boot_priority(&self) -> u32 {
        self.boot_priority
    }

    /// The entry point of the ARM11 core.
    pub closed spec fn spec_arm11_entrypoint(&self) -> u32 {
        self.arm11_entrypoint
    }

    /// The entry point of the ARM9 core.
    pub closed spec fn spec_arm9_entrypoint(&self) -> u32 {
        self.arm9_entrypoint
    }

    /// The four section headers.
    pub closed spec fn spec_sections(&self) -> Seq<SectionHeader> {
        self.firmware_section_headers@
    }

    /// The signature.
    pub closed spec fn spec_sig(&self) -> Seq<u8> {
        self.rsa2048_sig@
    }

    /// Whether the header is what the first 0x200 bytes of `bytes` say: the
    /// magic, the boot priority and the two entry points, little-endian,
    /// 0x30 reserved bytes, four section headers, and the signature.
    pub open spec fn is_header_of(&self, bytes: Seq<u8>) -> bool {
        &&& self.spec_magic() == bytes.subrange(0, 4)
        &&& self.spec_boot_priority() == u32_le_at(bytes, 4)
        &&& self.spec_arm11_entrypoint() == u32_le_at(bytes, 8)
        &&& self.spec_arm9_entrypoint() == u32_le_at(bytes, 0xc)
        &&& self.spec_sections().len() == 4
        &&& forall|i: int|
            0 <= i < 4 ==> (#[trigger] self.spec_sections()[i]).is_record(bytes, 0x40 + 0x30 * i)
        &&& self.spec_sig() == bytes.subrange(0x100, 0x200)
    }

    fn read(bytes: &[u8]) -> (r: FirmHeader)
        requires
            bytes.len() >= FIRM_HEADER_SIZE,
            copy_methods_ok(bytes@),
        ensures
            r.is_header_of(bytes@),
    {
        let mut headers = [SectionHeader::empty();4];
        let mut i: usize = 0;
        while i < 4
            invariant
                i <= 4,
                bytes.len() >= FIRM_HEADER_SIZE,
                copy_methods_ok(bytes@),
                forall|k: int| 0 <= k < i ==> (#[trigger] headers@[k]).is_record(bytes@, 0x40 + 0x30 * k),
            decreases 4 - i,
        {
            assert(spec_copy_code(bytes@, i as int) <= 2);
            headers[i] = SectionHeader::read(bytes, 0x40 + 0x30 * i);
            i = i + 1;
        }
        FirmHeader {
            magic: SizedCString(read_array::<4>(bytes, 0)),
            boot_priority: read_u32_le(bytes, 4),
            arm11_entrypoint: read_u32_le(bytes, 8),
            arm9_entrypoint: read_u32_le(bytes, 0xc),
            firmware_section_headers: headers,
            rsa2048_sig: read_array::<0x100>(bytes, 0x100),
        }
    }

    /// The boot priority; the image with the higher value boots first.
    #[must_use]
    pub fn boot_priority(&self) -> (r: u32)
        ensures
            r == self.spec_boot_priority(),
    {
        self.boot_priority
    }

    /// The entry point of the ARM11 core.
    #[must_use]
    pub fn arm11_entrypoint(&self) -> (r: u32)
        ensures
            r == self.spec_arm11_entrypoint(),
    {
        self.arm11_entrypoint
    }

    /// The entry point of the ARM9 core.
    #[must_use]
    pub fn arm9_entrypoint(&self) -> (r: u32)
        ensures
            r == self.spec_arm9_entrypoint(),
    {
        self.arm9_entrypoint
    }

    /// The four section headers.
    #[must_use]
    pub fn sections(&self) -> (r: &[SectionHeader; 4])
        ensures
            r@ == self.spec_sections(),
    {
        &self.firmware_section_headers
    }

    /// The section headers that stand for sections, in their order.
    pub fn section_iter(&self) -> (r: Vec<&SectionHeader>)
        ensures
            r@.len() == spec_sections_used(self.spec_sections(), 4).len(),
            forall|i: int|
                0 <= i < r@.len() ==> *(#[trigger] r@[i]) == spec_sections_used(
                    self.spec_sections(),
                    4,
                )[i],
    {
        let mut out: Vec<&SectionHeader> = Vec::new();
        let mut i: usize = 0;
        while i < 4
            invariant
                i <= 4,
                self.spec_sections().len() == 4,
                out@.len() == spec_sections_used(self.spec_sections(), i as int).len(),
                forall|k: int|
                    0 <= k < out@.len() ==> *(#[trigger] out@[k]) == spec_sections_used(
                        self.spec_sections(),
                        i as int,
                    )[k],
            decreases 4 - i,
        {
            let section = &self.firmware_section_headers[i];
            if section.size != 0 {
                out.push(section);
            }
            i = i + 1;
        }
        out
    }

    /// The signature.
    #[must_use]
    pub fn sig(&self) -> (r: &[u8; 0x100])
        ensures
            r@ == self.spec_sig(),
    {
        &self.rsa2048_sig
    }
}

/// The magic of a firmware image.
pub open spec fn spec_firm_magic() -> Seq<u8> {
    seq!['F' as u8, 'I' as u8, 'R' as u8, 'M' as u8]
}

/// The number of the copy method of section `i`.
pub open spec fn spec_copy_code(bytes: Seq<u8>, i: int) -> u32 {
    u32_le_at(bytes, 0x40 + 0x30 * i + 0xc)
}

/// The offset of section `i` in the image.
pub open spec fn spec_section_offset(bytes: Seq<u8>, i: int) -> u32 {
    u32_le_at(bytes, 0x40 + 0x30 * i)
}

/// The size of section `i`.
pub open spec fn spec_section_size(bytes: Seq<u8>, i: int) -> u32 {
    u32_le_at(bytes, 0x40 + 0x30 * i + 8)
}

/// Whether the copy method of each of the four sections exists.
pub open spec fn copy_methods_ok(bytes: Seq<u8>) -> bool {
    forall|i: int| 0 <= i < 4 ==> #[trigger] spec_copy_code(bytes, i) <= 2
}

/// Whether section `i` is empty or lies inside the image, after the header.
pub open spec fn section_fits(bytes: Seq<u8>, i: int) -> bool {
    spec_section_size(bytes, i) != 0 ==> FIRM_HEADER_SIZE <= spec_section_offset(bytes, i)
        && spec_section_offset(bytes, i) + spec_section_size(bytes, i) <= bytes.len()
}

/// Whether each of the four sections is empty or lies inside the image.
pub open spec fn sections_fit(bytes: Seq<u8>) -> bool {
    forall|i: int| 0 <= i < 4 ==> #[trigger] section_fits(bytes, i)
}

/// Whether the hash stored for section `i` is the SHA-256 hash of its
/// bytes; nothing is asked of an empty section.
pub open spec fn section_hash_ok(bytes: Seq<u8>, i: int) -> bool {
    spec_section_size(bytes, i) != 0 ==> sha256_digest(
        bytes.subrange(
            spec_section_offset(bytes, i) as int,
            spec_section_offset(bytes, i) + spec_section_size(bytes, i),
        ),
    ) == bytes.subrange(0x40 + 0x30 * i + 0x10, 0x40 + 0x30 * i + 0x30)
}

/// A firmware image, read over caller-owned bytes.
#[derive(Debug)]
pub struct Firm<'a> {
    header: FirmHeader,
    bytes: &'a [u8],
}

impl<'a> FromBytes<'a> for Firm<'a> {
    open spec fn spec_min_size() -> nat {
        FIRM_HEADER_SIZE as nat
    }

    /// The bytes must start with the magic and hold a whole header; the
    /// copy method of every section must exist; and every section that is
    /// not empty must lie inside the image, after the header.
    open spec fn spec_bytes_ok(bytes: Seq<u8>) -> CytrynaResult<()> {
        if bytes.len() < 4 {
            Err(CytrynaError::SliceTooSmall)
        } else if bytes.subrange(0, 4) != spec_firm_magic() {
            Err(CytrynaError::InvalidMagic)
        } else if bytes.len() < FIRM_HEADER_SIZE {
            Err(CytrynaError::SliceTooSmall)
        } else if !copy_methods_ok(bytes) {
            Err(CytrynaError::EnumValueOutOfRange("CopyMethod"))
        } else if !sections_fit(bytes) {
            Err(CytrynaError::InvalidRegionPosition)
        } else {
            Ok(())
        }
    }

    /// The hash stored for every section that is not empty must be the
    /// SHA-256 hash of the section.
    open spec fn spec_hash_ok(bytes: Seq<u8>) -> bool {
        forall|i: int| 0 <= i < 4 ==> #[trigger] section_hash_ok(bytes, i)
    }

    closed spec fn raw(&self) -> Seq<u8> {
        self.bytes@
    }

    open spec fn wf(&self) -> bool {
        &&& Self::spec_bytes_ok(self.raw()) is Ok
        &&& self.spec_header().is_header_of(self.raw())
    }

    fn min_size() -> (r: usize) {
        FIRM_HEADER_SIZE
    }

    fn bytes_ok(bytes: &[u8]) -> (r: CytrynaResult<()>) {
        if bytes.len() < 4 {
            return Err(CytrynaError::SliceTooSmall);
        }
        if bytes[0] != 'F' as u8 || bytes[1] != 'I' as u8 || bytes[2] != 'R' as u8 || bytes[3]
            != 'M' as u8 {
            assert(bytes@.subrange(0, 4) != spec_firm_magic()) by {
                assert(spec_firm_magic()[0] == 'F' as u8 && spec_firm_magic()[1] == 'I' as u8
                    && spec_firm_magic()[2] == 'R' as u8 && spec_firm_magic()[3] == 'M' as u8);
                assert(bytes@.subrange(0, 4)[0] == bytes@[0] && bytes@.subrange(0, 4)[1]
                    == bytes@[1] && bytes@.subrange(0, 4)[2] == bytes@[2] && bytes@.subrange(
                    0,
                    4,
                )[3] == bytes@[3]);
            }
            return Err(CytrynaError::InvalidMagic);
        }
        assert(bytes@.subrange(0, 4) =~= spec_firm_magic());
        if bytes.len() < FIRM_HEADER_SIZE {
            return Err(CytrynaError::SliceTooSmall);
        }
        let mut i: usize = 0;
        while i < 4
            invariant
                i <= 4,
                bytes.len() >= FIRM_HEADER_SIZE,
                bytes@.subrange(0, 4) == spec_firm_magic(),
                forall|k: int| 0 <= k < i ==> #[trigger] spec_copy_code(bytes@, k) <= 2,
            decreases 4 - i,
        {
            if read_u32_le(bytes, 0x40 + 0x30 * i + 0xc) > 2 {
                assert(spec_copy_code(bytes@, i as int) > 2);
                return Err(CytrynaError::EnumValueOutOfRange("CopyMethod"));
            }
            i = i + 1;
        }
        let mut i: usize = 0;
        while i < 4
            invariant
                i <= 4,
                bytes.len() >= FIRM_HEADER_SIZE,
                bytes@.subrange(0, 4) == spec_firm_magic(),
                copy_methods_ok(bytes@),
                forall|k: int| 0 <= k < i ==> #[trigger] section_fits(bytes@, k),
            decreases 4 - i,
        {
            let offset = read_u32_le(bytes, 0x40 + 0x30 * i) as u64;
            let size = read_u32_le(bytes, 0x40 + 0x30 * i + 8) as u64;
            if size != 0 && (offset < FIRM_HEADER_SIZE as u64 || offset + size > bytes.len() as u64) {
                assert(!section_fits(bytes@, i as int));
                return Err(CytrynaError::InvalidRegionPosition);
            }
            assert(section_fits(bytes@, i as int));
            i = i + 1;
        }
        Ok(())
    }

    fn cast(bytes: &'a [u8]) -> (r: Self) {
        let r = Firm { header: FirmHeader::read(bytes), bytes };
        assert(r.raw() == bytes@);
        r
    }

    fn hash_ok(&self) -> (r: bool) {
        let mut i: usize = 0;
        while i < 4
            invariant
                i <= 4,
                self.wf(),
                forall|k: int| 0 <= k < i ==> #[trigger] section_hash_ok(self.raw(), k),
            decreases 4 - i,
        {
            let section = &self.header.firmware_section_headers[i];
            assert(section.is_record(self.raw(), 0x40 + 0x30 * i)) by {
                assert(self.spec_header().spec_sections()[i as int] == *section);
            }
            if section.size != 0 {
                proof {
                    self.lemma_sections_hold();
                    assert(self.holds(self.spec_header().spec_sections()[i as int]));
                }
                let data = self.section_data(section);
                let digest = sha256(data);
                if !same_bytes(digest.as_slice(), section.hash.as_slice()) {
                    assert(!section_hash_ok(self.raw(), i as int));
                    return false;
                }
            }
            assert(section_hash_ok(self.raw(), i as int));
            i = i + 1;
        }
        true
    }
}

impl<'a> Firm<'a> {
    /// The header.
    pub closed spec fn spec_header(&self) -> FirmHeader {
        self.header
    }

    /// Whether the section that `section` stands for lies inside the
    /// image, after the header.
    pub open spec fn holds(&self, section: SectionHeader) -> bool {
        FIRM_HEADER_SIZE <= section.spec_offset() && section.spec_offset() + section.spec_size()
            <= self.raw().len()
    }

    /// An image holds every section of its header that is not empty.
    pub proof fn lemma_sections_hold(&self)
        requires
            self.wf(),
        ensures
            forall|i: int|
                0 <= i < 4 && self.spec_header().spec_sections()[i].spec_size() != 0
                    ==> #[trigger] self.holds(self.spec_header().spec_sections()[i]),
    {
        assert forall|i: int|
            0 <= i < 4 && self.spec_header().spec_sections()[i].spec_size()
                != 0 implies #[trigger] self.holds(self.spec_header().spec_sections()[i]) by {
            assert(section_fits(self.raw(), i));
            assert(self.spec_header().spec_sections()[i].is_record(self.raw(), 0x40 + 0x30 * i));
        }
    }

    /// The bytes of the section that `section` stands for.
    #[must_use]
    pub fn section_data(&self, section: &SectionHeader) -> (r: &'a [u8])
        requires
            self.holds(*section),
        ensures
            r@ == self.raw().subrange(
                section.spec_offset() as int,
                section.spec_offset() + section.spec_size(),
            ),
    {
        window(self.bytes, section.offset as usize, section.size as usize)
    }

    /// The header.
    #[must_use]
    pub fn header(&self) -> (r: &FirmHeader)
        ensures
            *r == self.spec_header(),
    {
        &self.header
    }
}


/// Why a firmware image cannot be built.
#[derive(Debug)]
pub enum FirmBuilderError {
    /// A fifth section was added.
    TooManySections,
    /// The entry point of the ARM9 core is missing.
    NoArm9Entry,
    /// The entry point of the ARM11 core is missing.
    NoArm11Entry,
    /// There is no section.
    NoSections,
    /// The signature is missing.
    NoSig,
}

/// The signature of an image to build: one of the signatures that the boot
/// ROM of a retail console accepts for any image, or one of the caller's.
#[derive(Debug)]
pub enum FirmSignature {
    /// For an image booted from the internal storage.
    RetailSighaxNand,
    /// For an image booted from a game card.
    RetailSighaxNtr,
    /// For an image booted over SPI.
    RetailSighaxSpi,
    /// The caller's own signature.
    Custom(Box<[u8; 0x100]>),
}

impl FirmSignature {
    /// The bytes of the signature.
    pub open spec fn spec_bytes(&self) -> Seq<u8> {
        match self {
            FirmSignature::RetailSighaxNand => RETAIL_NAND_FIRM@,
            FirmSignature::RetailSighaxNtr => RETAIL_NTR_FIRM@,
            FirmSignature::RetailSighaxSpi => RETAIL_NTR_FIRM@,
            FirmSignature::Custom(sig) => sig@,
        }
    }

    /// The bytes of the signature.
    pub fn into_bytes(self) -> (r: [u8; 0x100])
        ensures
            r@ == self.spec_bytes(),
    {
        match self {
            FirmSignature::RetailSighaxNand => RETAIL_NAND_FIRM,
            FirmSignature::RetailSighaxNtr => RETAIL_NTR_FIRM,
            FirmSignature::RetailSighaxSpi => RETAIL_NTR_FIRM,
            FirmSignature::Custom(sig) => *sig,
        }
    }
}

/// A section of an image to build: its bytes, the address it is loaded to,
/// and how it is copied there.
#[derive(Debug)]
pub struct FirmwareSection {
    data: Vec<u8>,
    addr: u32,
    copy_method: CopyMethod,
}

impl FirmwareSection {
    /// The bytes of the section.
    pub closed spec fn spec_data(&self) -> Seq<u8> {
        self.data@
    }

    /// The address that the section is loaded to.
    pub closed spec fn spec_addr(&self) -> u32 {
        self.addr
    }

    /// How the section is copied.
    pub closed spec fn spec_copy_method(&self) -> CopyMethod {
        self.copy_method
    }

    /// The section with these bytes, this load address and this copy
    /// method.
    pub fn new(data: Vec<u8>, addr: u32, copy_method: CopyMethod) -> (r: Self)
        ensures
            r.spec_data() == data@,
            r.spec_addr() == addr,
            r.spec_copy_method() == copy_method,
    {
        Self { data, addr, copy_method }
    }
}

/// Collects what a firmware image is built from.
#[derive(Debug)]
pub struct FirmBuilder {
    boot_priority: u32,
    arm11_entrypoint: Option<u32>,
    arm9_entrypoint: Option<u32>,
    fw_sections: [Option<FirmwareSection>; 4],
    signature: Option<FirmSignature>,
}

impl FirmBuilder {
    /// The boot priority.
    pub closed spec fn spec_boot_priority(&self) -> u32 {
        self.boot_priority
    }

    /// The entry point of the ARM11 core.
    pub closed spec fn spec_arm11_entrypoint(&self) -> Option<u32> {
        self.arm11_entrypoint
    }

    /// The entry point of the ARM9 core.
    pub closed spec fn spec_arm9_entrypoint(&self) -> Option<u32> {
        self.arm9_entrypoint
    }

    /// The four slots for sections.
    pub closed spec fn spec_sections(&self) -> Seq<Option<FirmwareSection>> {
        self.fw_sections@
    }

    /// The signature.
    pub closed spec fn spec_signature(&self) -> Option<FirmSignature> {
        self.signature
    }

    /// Sets the boot priority; it is zero where it is never set.
    pub fn boot_priority(&mut self, val: u32) -> (r: &mut Self)
        ensures
            r.spec_boot_priority() == val,
            r.spec_arm11_entrypoint() == old(self).spec_arm11_entrypoint(),
            r.spec_arm9_entrypoint() == old(self).spec_arm9_entrypoint(),
            r.spec_sections() == old(self).spec_sections(),
            r.spec_signature() == old(self).spec_signature(),
            *final(self) == *final(r),
    {
        self.boot_priority = val;
        self
    }

    /// Sets the entry point of the ARM11 core.
    pub fn arm11_entrypoint(&mut self, val: u32) -> (r: &mut Self)
        ensures
            r.spec_boot_priority() == old(self).spec_boot_priority(),
            r.spec_arm11_entrypoint() == Some(val),
            r.spec_arm9_entrypoint() == old(self).spec_arm9_entrypoint(),
            r.spec_sections() == old(self).spec_sections(),
            r.spec_signature() == old(self).spec_signature(),
            *final(self) == *final(r),
    {
        self.arm11_entrypoint = Some(val);
        self
    }

    /// Sets the entry point of the ARM9 core.
    pub fn arm9_entrypoint(&mut self, val: u32) -> (r: &mut Self)
        ensures
            r.spec_boot_priority() == old(self).spec_boot_priority(),
            r.spec_arm11_entrypoint() == old(self).spec_arm11_entrypoint(),
            r.spec_arm9_entrypoint() == Some(val),
            r.spec_sections() == old(self).spec_sections(),
            r.spec_signature() == old(self).spec_signature(),
            *final(self) == *final(r),
    {
        self.arm9_entrypoint = Some(val);
        self
    }

    /// Sets the signature.
    pub fn signature(&mut self, sig: FirmSignature) -> (r: &mut Self)
        ensures
            r.spec_boot_priority() == old(self).spec_boot_priority(),
            r.spec_arm11_entrypoint() == old(self).spec_arm11_entrypoint(),
            r.spec_arm9_entrypoint() == old(self).spec_arm9_entrypoint(),
            r.spec_sections() == old(self).spec_sections(),
            r.spec_signature() == Some(sig),
            *final(self) == *final(r),
    {
        self.signature = Some(sig);
        self
    }

    /// The first free slot, or 4 where all are taken.
    pub open spec fn spec_free_slot(&self) -> int {
        if self.spec_sections()[0] is None {
            0
        } else if self.spec_sections()[1] is None {
            1
        } else if self.spec_sections()[2] is None {
            2
        } else if self.spec_sections()[3] is None {
            3
        } else {
            4
        }
    }

    /// Puts `section` into the first free slot; `TooManySections` where all
    /// four are taken, and then nothing changes.
    pub fn add_fw_section(&mut self, section: FirmwareSection) -> (r: Result<
        &mut Self,
        FirmBuilderError,
    >)
        ensures
            match r {
                Ok(b) => {
                    &&& old(self).spec_free_slot() < 4
                    &&& b.spec_sections() == old(self).spec_sections().update(
                        old(self).spec_free_slot(),
                        Some(section),
                    )
                    &&& b.spec_boot_priority() == old(self).spec_boot_priority()
                    &&& b.spec_arm11_entrypoint() == old(self).spec_arm11_entrypoint()
                    &&& b.spec_arm9_entrypoint() == old(self).spec_arm9_entrypoint()
                    &&& b.spec_signature() == old(self).spec_signature()
                    &&& *final(self) == *final(b)
                },
                Err(e) => old(self).spec_free_slot() == 4 && e is TooManySections && *final(self)
                    == *old(self),
            },
    {
        let mut i: usize = 0;
        while i < 4
            invariant
                i <= 4,
                *self == *old(self),
                self.spec_sections().len() == 4,
                forall|k: int| 0 <= k < i ==> self.spec_sections()[k] is Some,
            decreases 4 - i,
        {
            if self.fw_sections[i].is_none() {
                self.fw_sections[i] = Some(section);
                assert(self.spec_sections() =~= old(self).spec_sections().update(
                    i as int,
                    Some(section),
                ));
                return Ok(self);
            }
            i = i + 1;
        }
        Err(FirmBuilderError::TooManySections)
    }

    /// Puts `section` into slot `which`, whatever was there.
    pub fn override_section(&mut self, which: usize, section: FirmwareSection) -> (r: &mut Self)
        requires
            which < 4,
        ensures
            r.spec_sections() == old(self).spec_sections().update(which as int, Some(section)),
            r.spec_boot_priority() == old(self).spec_boot_priority(),
            r.spec_arm11_entrypoint() == old(self).spec_arm11_entrypoint(),
            r.spec_arm9_entrypoint() == old(self).spec_arm9_entrypoint(),
            r.spec_signature() == old(self).spec_signature(),
            *final(self) == *final(r),
    {
        self.fw_sections[which] = Some(section);
        assert(self.spec_sections() =~= old(self).spec_sections().update(
            which as int,
            Some(section),
        ));
        self
    }
}

impl<'a> Firm<'a> {
    /// The builder with nothing set.
    #[must_use]
    pub fn builder() -> (r: FirmBuilder)
        ensures
            r.spec_boot_priority() == 0,
            r.spec_arm11_entrypoint() is None,
            r.spec_arm9_entrypoint() is None,
            r.spec_sections().len() == 4,
            forall|i: int| 0 <= i < 4 ==> r.spec_sections()[i] is None,
            r.spec_signature() is None,
    {
        FirmBuilder {
            boot_priority: 0,
            arm11_entrypoint: None,
            arm9_entrypoint: None,
            fw_sections: [None, None, None, None],
            signature: None,
        }
    }
}


/// `data` followed by as many zeros as make its length a multiple of 0x200.
pub open spec fn spec_padded(data: Seq<u8>) -> Seq<u8> {
    data + zeros(spec_align_up(data.len() as int, 0x200) - data.len())
}

/// The sections of the first `n` slots, each padded, one after another.
pub open spec fn spec_body(slots: Seq<Option<FirmwareSection>>, n: int) -> Seq<u8>
    decreases n,
{
    if n <= 0 {
        Seq::empty()
    } else {
        match slots[n - 1] {
            Some(section) => spec_body(slots, n - 1) + spec_padded(section.spec_data()),
            None => spec_body(slots, n - 1),
        }
    }
}

/// The header of a section that starts at `offset` in the image: the
/// offset, the load address, the padded size and the copy method,
/// little-endian, and the SHA-256 hash of the padded bytes.
pub open spec fn spec_section_entry(offset: int, section: FirmwareSection) -> Seq<u8> {
    u32_le_bytes(offset as u32) + u32_le_bytes(section.spec_addr()) + u32_le_bytes(
        spec_padded(section.spec_data()).len() as u32,
    ) + u32_le_bytes(section.spec_copy_method().spec_code()) + sha256_digest(
        spec_padded(section.spec_data()),
    )
}

/// The headers of the sections of the first `n` slots, one after another.
/// The first section starts right after the header of the image, and each
/// other section where the one before it ends.
pub open spec fn spec_entries(slots: Seq<Option<FirmwareSection>>, n: int) -> Seq<u8>
    decreases n,
{
    if n <= 0 {
        Seq::empty()
    } else {
        match slots[n - 1] {
            Some(section) => spec_entries(slots, n - 1) + spec_section_entry(
                FIRM_HEADER_SIZE + spec_body(slots, n - 1).len(),
                section,
            ),
            None => spec_entries(slots, n - 1),
        }
    }
}

/// The image built from a boot priority, two entry points, a signature
/// and the sections in four slots: the magic, the priority and the entry
/// points little-endian, 0x30 zero bytes, the headers of the sections
/// filled up with zeros to four headers, the signature, and the sections.
pub open spec fn spec_image(
    boot_priority: u32,
    arm11_entrypoint: u32,
    arm9_entrypoint: u32,
    sig: Seq<u8>,
    slots: Seq<Option<FirmwareSection>>,
) -> Seq<u8> {
    spec_firm_magic() + u32_le_bytes(boot_priority) + u32_le_bytes(arm11_entrypoint)
        + u32_le_bytes(arm9_entrypoint) + zeros(0x30) + spec_entries(slots, 4) + zeros(
        0xc0 - spec_entries(slots, 4).len(),
    ) + sig + spec_body(slots, 4)
}

/// Whether one of the first `n` slots holds a section.
pub open spec fn spec_any_section(slots: Seq<Option<FirmwareSection>>, n: int) -> bool {
    exists|i: int| 0 <= i < n && (#[trigger] slots[i]) is Some
}

impl FirmBuilder {
    /// Whether the image fits the 32-bit offsets of its section headers.
    pub open spec fn image_fits(&self) -> bool {
        FIRM_HEADER_SIZE + spec_body(self.spec_sections(), 4).len() <= u32::MAX
    }

    /// What `build` gives: the image, or what is missing for it. The entry
    /// point of the ARM11 core is missed first, then that of the ARM9 core,
    /// then the sections, then the signature.
    pub open spec fn spec_build(&self) -> Result<Seq<u8>, FirmBuilderError> {
        if self.spec_arm11_entrypoint() is None {
            Err(FirmBuilderError::NoArm11Entry)
        } else if self.spec_arm9_entrypoint() is None {
            Err(FirmBuilderError::NoArm9Entry)
        } else if !spec_any_section(self.spec_sections(), 4) {
            Err(FirmBuilderError::NoSections)
        } else if self.spec_signature() is None {
            Err(FirmBuilderError::NoSig)
        } else {
            Ok(
                spec_image(
                    self.spec_boot_priority(),
                    self.spec_arm11_entrypoint()->Some_0,
                    self.spec_arm9_entrypoint()->Some_0,
                    self.spec_signature()->Some_0.spec_bytes(),
                    self.spec_sections(),
                ),
            )
        }
    }

    /// Whether one of the slots holds a section.
    fn has_sections(&self) -> (r: bool)
        ensures
            r == spec_any_section(self.spec_sections(), 4),
    {
        let mut i: usize = 0;
        while i < 4
            invariant
                i <= 4,
                self.spec_sections().len() == 4,
                forall|k: int| 0 <= k < i ==> self.spec_sections()[k] is None,
            decreases 4 - i,
        {
            if self.fw_sections[i].is_some() {
                return true;
            }
            i = i + 1;
        }
        false
    }

    /// Builds the image. The builder gives its signature away to the image
    /// and keeps the rest.
    pub fn build(&mut self) -> (r: Result<Vec<u8>, FirmBuilderError>)
        requires
            old(self).image_fits(),
        ensures
            match r {
                Ok(image) => {
                    &&& old(self).spec_build() == Ok::<Seq<u8>, FirmBuilderError>(image@)
                    &&& final(self).spec_signature() is None
                },
                Err(e) => {
                    &&& old(self).spec_build() == Err::<Seq<u8>, FirmBuilderError>(e)
                    &&& final(self).spec_signature() == old(self).spec_signature()
                },
            },
            final(self).spec_boot_priority() == old(self).spec_boot_priority(),
            final(self).spec_arm11_entrypoint() == old(self).spec_arm11_entrypoint(),
            final(self).spec_arm9_entrypoint() == old(self).spec_arm9_entrypoint(),
            final(self).spec_sections() == old(self).spec_sections(),
    {
        let arm11_entrypoint = match self.arm11_entrypoint {
            Some(v) => v,
            None => {
                return Err(FirmBuilderError::NoArm11Entry);
            },
        };
        let arm9_entrypoint = match self.arm9_entrypoint {
            Some(v) => v,
            None => {
                return Err(FirmBuilderError::NoArm9Entry);
            },
        };
        if !self.has_sections() {
            return Err(FirmBuilderError::NoSections);
        }
        let sig = match self.signature.take() {
            Some(sig) => sig.into_bytes(),
            None => {
                return Err(FirmBuilderError::NoSig);
            },
        };
        let mut entries: Vec<u8> = Vec::new();
        let mut body: Vec<u8> = Vec::new();
        let mut i: usize = 0;
        while i < 4
            invariant
                i <= 4,
                self.spec_sections().len() == 4,
                FIRM_HEADER_SIZE + spec_body(self.spec_sections(), 4).len() <= u32::MAX,
                entries@ == spec_entries(self.spec_sections(), i as int),
                body@ == spec_body(self.spec_sections(), i as int),
                entries@.len() <= 0x30 * i,
            decreases 4 - i,
        {
            proof {
                lemma_body_grows(self.spec_sections(), i as int + 1, 4);
            }
            match &self.fw_sections[i] {
                Some(section) => {
                    let offset = FIRM_HEADER_SIZE + body.len();
                    let len = section.data.len();
                    let rest = len % 0x200;
                    let pad = if rest != 0 {
                        0x200 - rest
                    } else {
                        0
                    };
                    let start = body.len();
                    push_bytes(&mut body, section.data.as_slice());
                    push_zeros(&mut body, pad);
                    let padded = window(body.as_slice(), start, len + pad);
                    assert(padded@ =~= spec_padded(section.spec_data()));
                    let hash = sha256(padded);
                    push_u32_le(&mut entries, offset as u32);
                    push_u32_le(&mut entries, section.addr);
                    push_u32_le(&mut entries, (len + pad) as u32);
                    push_u32_le(&mut entries, section.copy_method.code());
                    push_bytes(&mut entries, hash.as_slice());
                    assert(entries@ =~= spec_entries(self.spec_sections(), i as int + 1));
                    assert(body@ =~= spec_body(self.spec_sections(), i as int + 1));
                },
                None => {},
            }
            i = i + 1;
        }
        let magic: [u8; 4] = ['F' as u8, 'I' as u8, 'R' as u8, 'M' as u8];
        assert(magic@ =~= spec_firm_magic());
        let mut buf: Vec<u8> = Vec::new();
        push_bytes(&mut buf, magic.as_slice());
        push_u32_le(&mut buf, self.boot_priority);
        push_u32_le(&mut buf, arm11_entrypoint);
        push_u32_le(&mut buf, arm9_entrypoint);
        push_zeros(&mut buf, 0x30);
        push_bytes(&mut buf, entries.as_slice());
        push_zeros(&mut buf, 0xc0 - entries.len());
        push_bytes(&mut buf, sig.as_slice());
        push_bytes(&mut buf, body.as_slice());
        Ok(buf)
    }
}

/// The sections of more slots are at least as long as those of fewer.
pub proof fn lemma_body_grows(slots: Seq<Option<FirmwareSection>>, n: int, m: int)
    requires
        0 <= n <= m,
    ensures
        spec_body(slots, n).len() <= spec_body(slots, m).len(),
    decreases m - n,
{
    if n < m {
        lemma_body_grows(slots, n, m - 1);
    }
}

} // verus!
