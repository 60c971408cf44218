//! The homebrew executable format: a header, an optional extended header,
//! three relocation headers, the segments, and the relocation tables.

use vstd::prelude::*;
use crate::bytes::{read_array, read_u16_le, read_u32_le, u16_le_at, u32_le_at, window};
use crate::error::{CytrynaError, CytrynaResult};
use crate::string::SizedCString;
use crate::FromBytes;

verus! {

/// The length of the header.
pub const HB3DSX_HEADER_SIZE: usize = 0x20;

/// The length of a relocation header.
pub const RELOCATION_HEADER_SIZE: usize = 0x8;

/// The length of one relocation.
pub const RELOCATION_SIZE: usize = 0x4;

/// The length of the extended header.
pub const HB3DSX_EXHEADER_SIZE: usize = 0xc;

/// The header of a homebrew executable.
#[derive(Clone, Copy, Debug)]
pub struct Hb3dsxHeader {
    pub magic: SizedCString<4>,
    pub header_size: u16,
    pub relocation_header_size: u16,
    pub format_version: u32,
    pub flags: u32,
    pub code_segment_size: u32,
    pub rodata_segment_size: u32,
    pub data_bss_segment_size: u32,
    pub bss_segment_size: u32,
}

impl Hb3dsxHeader {
    /// Whether the header is what the first 0x20 bytes of `bytes` say,
    /// every number little-endian.
    pub open spec fn is_header_of(&self, bytes: Seq<u8>) -> bool {
        &&& self.magic@ == bytes.subrange(0, 4)
        &&& self.header_size == u16_le_at(bytes, 4)
        &&& self.relocation_header_size == u16_le_at(bytes, 6)
        &&& self.format_version == u32_le_at(bytes, 8)
        &&& self.flags == u32_le_at(bytes, 0xc)
        &&& self.code_segment_size == u32_le_at(bytes, 0x10)
        &&& self.rodata_segment_size == u32_le_at(bytes, 0x14)
        &&& self.data_bss_segment_size == u32_le_at(bytes, 0x18)
        &&& self.bss_segment_size == u32_le_at(bytes, 0x1c)
    }

    fn read(bytes: &[u8]) -> (r: Hb3dsxHeader)
        requires
            bytes.len() >= HB3DSX_HEADER_SIZE,
        ensures
            r.is_header_of(bytes@),
    {
        Hb3dsxHeader {
            magic: SizedCString(read_array::<4>(bytes, 0)),
            header_size: read_u16_le(bytes, 4),
            relocation_header_size: read_u16_le(bytes, 6),
            format_version: read_u32_le(bytes, 8),
            flags: read_u32_le(bytes, 0xc),
            code_segment_size: read_u32_le(bytes, 0x10),
            rodata_segment_size: read_u32_le(bytes, 0x14),
            data_bss_segment_size: read_u32_le(bytes, 0x18),
            bss_segment_size: read_u32_le(bytes, 0x1c),
        }
    }

    /// Whether the sizes that the header declares can be added up: the
    /// header is no shorter than its fixed part, and the uninitialized data
    /// is no longer than the data segment that holds it.
    pub open spec fn sizes_ok(&self) -> bool {
        &&& self.header_size >= HB3DSX_HEADER_SIZE
        &&& self.bss_segment_size <= self.data_bss_segment_size
    }

    /// Where the code relocation header starts, counted from the end of
    /// the fixed part of the header.
    pub open spec fn spec_code_reloc_header_offset(&self) -> int {
        self.header_size - HB3DSX_HEADER_SIZE
    }

    /// Where the code segment starts: after the three relocation headers.
    pub open spec fn spec_code_segment_offset(&self) -> int {
        self.spec_code_reloc_header_offset() + 3 * RELOCATION_HEADER_SIZE
    }

    /// Where the relocation table of the code starts: after the code, the
    /// read-only data, and the initialized part of the data.
    pub open spec fn spec_code_reloc_table_offset(&self) -> int {
        self.spec_code_segment_offset() + self.code_segment_size + self.rodata_segment_size + (
        self.data_bss_segment_size - self.bss_segment_size)
    }

    /// Where the extended header starts.
    pub fn exheader_offset(&self) -> (r: usize)
        ensures
            r == 0,
    {
        0
    }

    /// Where the code relocation header starts.
    pub fn code_reloc_header_offset(&self) -> (r: usize)
        requires
            self.header_size >= HB3DSX_HEADER_SIZE,
        ensures
            r == self.spec_code_reloc_header_offset(),
    {
        self.header_size as usize - HB3DSX_HEADER_SIZE
    }

    /// Where the relocation header of the read-only data starts.
    pub fn rodata_reloc_header_offset(&self) -> (r: usize)
        requires
            self.header_size >= HB3DSX_HEADER_SIZE,
        ensures
            r == self.spec_code_reloc_header_offset() + RELOCATION_HEADER_SIZE,
    {
        self.code_reloc_header_offset() + RELOCATION_HEADER_SIZE
    }

    /// Where the relocation header of the data starts.
    pub fn data_reloc_header_offset(&self) -> (r: usize)
        requires
            self.header_size >= HB3DSX_HEADER_SIZE,
        ensures
            r == self.spec_code_reloc_header_offset() + 2 * RELOCATION_HEADER_SIZE,
    {
        self.rodata_reloc_header_offset() + RELOCATION_HEADER_SIZE
    }

    /// Where the code segment starts.
    pub fn code_segment_offset(&self) -> (r: usize)
        requires
            self.header_size >= HB3DSX_HEADER_SIZE,
        ensures
            r == self.spec_code_segment_offset(),
    {
        self.data_reloc_header_offset() + RELOCATION_HEADER_SIZE
    }

    /// Where the segment of the read-only data starts.
    pub fn rodata_segment_offset(&self) -> (r: u64)
        requires
            self.header_size >= HB3DSX_HEADER_SIZE,
        ensures
            r == self.spec_code_segment_offset() + self.code_segment_size,
    {
        self.code_segment_offset() as u64 + self.code_segment_size as u64
    }

    /// Where the data segment starts.
    pub fn data_segment_offset(&self) -> (r: u64)
        requires
            self.header_size >= HB3DSX_HEADER_SIZE,
        ensures
            r == self.spec_code_segment_offset() + self.code_segment_size
                + self.rodata_segment_size,
    {
        self.rodata_segment_offset() + self.rodata_segment_size as u64
    }

    /// Where the relocation table of the code starts.
    pub fn code_reloc_table_offset(&self) -> (r: u64)
        requires
            self.sizes_ok(),
        ensures
            r == self.spec_code_reloc_table_offset(),
    {
        self.data_segment_offset() + (self.data_bss_segment_size - self.bss_segment_size) as u64
    }
}

/// The extended header of a homebrew executable.
#[derive(Clone, Copy, Debug)]
pub struct Hb3dsxExheader {
    pub smdh_offset: u32,
    pub smdh_size: u32,
    pub romfs_offset: u32,
}

impl Hb3dsxExheader {
    /// Whether the header is what the twelve bytes at `at` say.
    pub open spec fn is_record(&self, bytes: Seq<u8>, at: int) -> bool {
        &&& self.smdh_offset == u32_le_at(bytes, at)
        &&& self.smdh_size == u32_le_at(bytes, at + 4)
        &&& self.romfs_offset == u32_le_at(bytes, at + 8)
    }
}

/// A relocation header: how many absolute and how many relative
/// relocations a segment has.
#[derive(Clone, Copy, Debug)]
pub struct RelocationHeader {
    pub abs_count: u32,
    pub rel_count: u32,
}

impl RelocationHeader {
    /// Whether the header is what the eight bytes at `at` say.
    pub open spec fn is_record(&self, bytes: Seq<u8>, at: int) -> bool {
        &&& self.abs_count == u32_le_at(bytes, at)
        &&& self.rel_count == u32_le_at(bytes, at + 4)
    }

    /// The length of the relocation table in bytes.
    pub open spec fn spec_table_size(&self) -> int {
        (self.abs_count + self.rel_count) * 4
    }

    /// The length of the relocation table in bytes.
    pub fn table_size(&self) -> (r: u64)
        ensures
            r == self.spec_table_size(),
    {
        (self.abs_count as u64 + self.rel_count as u64) * 4
    }
}

/// One relocation: how many words to skip, and how many to patch.
#[derive(Clone, Copy, Debug)]
pub struct Relocation {
    pub skip: u16,
    pub patch: u16,
}

impl Relocation {
    /// Whether the relocation is what the four bytes at `at` say.
    pub open spec fn is_record(&self, bytes: Seq<u8>, at: int) -> bool {
        &&& self.skip == u16_le_at(bytes, at)
        &&& self.patch == u16_le_at(bytes, at + 2)
    }
}

/// Whether a relocation is absolute or relative.
#[derive(Clone, Copy, Debug, PartialEq, Eq, Structural)]
pub enum RelocationType {
    Absolute,
    Relative,
}

/// A homebrew executable, read over caller-owned bytes.
#[derive(Debug)]
pub struct Hb3dsx<'a> {
    header: Hb3dsxHeader,
    bytes: &'a [u8],
}

/// The magic of a homebrew executable.
pub open spec fn spec_3dsx_magic() -> Seq<u8> {
    seq!['3' as u8, 'D' as u8, 'S' as u8, 'X' as u8]
}

impl<'a> FromBytes<'a> for Hb3dsx<'a> {
    open spec fn spec_min_size() -> nat {
        HB3DSX_HEADER_SIZE as nat
    }

    /// The bytes must start with the magic.
    open spec fn spec_bytes_ok(bytes: Seq<u8>) -> CytrynaResult<()> {
        if bytes.len() < 4 {
            Err(CytrynaError::SliceTooSmall)
        } else if bytes.subrange(0, 4) != spec_3dsx_magic() {
            Err(CytrynaError::InvalidMagic)
        } else {
            Ok(())
        }
    }

    open spec fn spec_hash_ok(bytes: Seq<u8>) -> bool {
        true
    }

    closed spec fn raw(&self) -> Seq<u8> {
        self.bytes@
    }

    open spec fn wf(&self) -> bool {
        &&& Self::spec_bytes_ok(self.raw()) is Ok
        &&& self.raw().len() >= HB3DSX_HEADER_SIZE
        &&& self.spec_header().is_header_of(self.raw())
    }

    fn min_size() -> (r: usize) {
        HB3DSX_HEADER_SIZE
    }

    fn bytes_ok(bytes: &[u8]) -> (r: CytrynaResult<()>) {
        if bytes.len() < 4 {
            return Err(CytrynaError::SliceTooSmall);
        }
        if bytes[0] != '3' as u8 || bytes[1] != 'D' as u8 || bytes[2] != 'S' as u8 || bytes[3]
            != 'X' as u8 {
            assert(bytes@.subrange(0, 4) != spec_3dsx_magic()) by {
                assert(spec_3dsx_magic()[0] == '3' as u8 && spec_3dsx_magic()[1] == 'D' as u8
                    && spec_3dsx_magic()[2] == 'S' as u8 && spec_3dsx_magic()[3] == 'X' as u8);
                assert(bytes@.subrange(0, 4)[0] == bytes@[0] && bytes@.subrange(0, 4)[1]
                    == bytes@[1] && bytes@.subrange(0, 4)[2] == bytes@[2] && bytes@.subrange(
                    0,
                    4,
                )[3] == bytes@[3]);
            }
            return Err(CytrynaError::InvalidMagic);
        }
        assert(bytes@.subrange(0, 4) =~= spec_3dsx_magic());
        Ok(())
    }

    fn cast(bytes: &'a [u8]) -> (r: Self) {
        assert(Self::spec_min_size() == 0x20);
        let r = Hb3dsx { header: Hb3dsxHeader::read(bytes), bytes };
        assert(r.raw() == bytes@);
        r
    }

    fn hash_ok(&self) -> (r: bool) {
        true
    }
}

impl<'a> Hb3dsx<'a> {
    /// The header.
    pub closed spec fn spec_header(&self) -> Hb3dsxHeader {
        self.header
    }

    /// What follows the fixed part of the header.
    pub open spec fn spec_data(&self) -> Seq<u8> {
        self.raw().skip(HB3DSX_HEADER_SIZE as int)
    }

    /// Whether the relocation header at `offset` lies inside the data.
    pub open spec fn reloc_header_fits(&self, offset: int) -> bool {
        0 <= offset && offset + RELOCATION_HEADER_SIZE <= self.spec_data().len()
    }

    /// Whether the relocation table of the code lies inside the data: its
    /// relocation header does, and so does the table of the length that
    /// the header declares.
    pub open spec fn code_reloc_table_fits(&self) -> bool {
        &&& self.spec_header().sizes_ok()
        &&& self.reloc_header_fits(self.spec_header().spec_code_reloc_header_offset())
        &&& self.spec_header().spec_code_reloc_table_offset() + (u32_le_at(
            self.spec_data(),
            self.spec_header().spec_code_reloc_header_offset(),
        ) + u32_le_at(self.spec_data(), self.spec_header().spec_code_reloc_header_offset() + 4)) * 4
            <= self.spec_data().len()
    }

    /// What follows the fixed part of the header.
    pub fn data(&self) -> (r: &'a [u8])
        requires
            self.wf(),
        ensures
            r@ == self.spec_data(),
    {
        let r = window(self.bytes, HB3DSX_HEADER_SIZE, self.bytes.len() - HB3DSX_HEADER_SIZE);
        assert(r@ =~= self.spec_data());
        r
    }

    /// The header.
    pub fn header(&self) -> (r: &Hb3dsxHeader)
        ensures
            *r == self.spec_header(),
    {
        &self.header
    }

    /// The extended header, where the header is long enough to have one
    /// and the data holds it.
    pub fn exheader(&self) -> (r: Option<Hb3dsxExheader>)
        requires
            self.wf(),
            self.spec_header().header_size == 0x2c ==> self.spec_data().len()
                >= HB3DSX_EXHEADER_SIZE,
        ensures
            match r {
                Some(header) => self.spec_header().header_size == 0x2c && header.is_record(
                    self.spec_data(),
                    0,
                ),
                None => self.spec_header().header_size != 0x2c,
            },
    {
        if self.header.header_size != 0x2c {
            None
        } else {
            let data = self.data();
            Some(
                Hb3dsxExheader {
                    smdh_offset: read_u32_le(data, 0),
                    smdh_size: read_u32_le(data, 4),
                    romfs_offset: read_u32_le(data, 8),
                },
            )
        }
    }

    /// The relocation header at `offset`.
    fn reloc_header(&self, offset: usize) -> (r: RelocationHeader)
        requires
            self.wf(),
            self.reloc_header_fits(offset as int),
        ensures
            r.is_record(self.spec_data(), offset as int),
    {
        let data = self.data();
        let total = data.len();
        RelocationHeader {
            abs_count: read_u32_le(data, offset),
            rel_count: read_u32_le(data, offset + 4),
        }
    }

    /// The relocation header of the code.
    pub fn code_reloc_header(&self) -> (r: RelocationHeader)
        requires
            self.wf(),
            self.spec_header().header_size >= HB3DSX_HEADER_SIZE,
            self.reloc_header_fits(self.spec_header().spec_code_reloc_header_offset()),
        ensures
            r.is_record(self.spec_data(), self.spec_header().spec_code_reloc_header_offset()),
    {
        self.reloc_header(self.header.code_reloc_header_offset())
    }

    /// The relocation header of the read-only data.
    pub fn rodata_reloc_header(&self) -> (r: RelocationHeader)
        requires
            self.wf(),
            self.spec_header().header_size >= HB3DSX_HEADER_SIZE,
            self.reloc_header_fits(self.spec_header().spec_code_reloc_header_offset() + 8),
        ensures
            r.is_record(self.spec_data(), self.spec_header().spec_code_reloc_header_offset() + 8),
    {
        self.reloc_header(self.header.rodata_reloc_header_offset())
    }

    /// The relocation header of the data.
    pub fn data_reloc_header(&self) -> (r: RelocationHeader)
        requires
            self.wf(),
            self.spec_header().header_size >= HB3DSX_HEADER_SIZE,
            self.reloc_header_fits(self.spec_header().spec_code_reloc_header_offset() + 0x10),
        ensures
            r.is_record(
                self.spec_data(),
                self.spec_header().spec_code_reloc_header_offset() + 0x10,
            ),
    {
        self.reloc_header(self.header.data_reloc_header_offset())
    }

    /// The walk over the relocations of the code, standing before the
    /// first.
    pub fn code_reloc_iter(&self) -> (r: RelocationIter<'a>)
        requires
            self.wf(),
            self.code_reloc_table_fits(),
        ensures
            r.wf(),
            r.spec_offset() == 0,
            r.spec_hdr().is_record(
                self.spec_data(),
                self.spec_header().spec_code_reloc_header_offset(),
            ),
            r.spec_data() == self.spec_data().subrange(
                self.spec_header().spec_code_reloc_table_offset(),
                self.spec_header().spec_code_reloc_table_offset() + r.spec_hdr().spec_table_size(),
            ),
    {
        let hdr = self.code_reloc_header();
        let data = self.data();
        let total = data.len();
        let at = self.header.code_reloc_table_offset();
        let len = hdr.table_size();
        let table = window(data, at as usize, len as usize);
        RelocationIter { hdr, offset_bytes: 0, data: table }
    }
}

/// Walks a relocation table, relocation by relocation.
#[derive(Debug)]
pub struct RelocationIter<'a> {
    hdr: RelocationHeader,
    offset_bytes: usize,
    data: &'a [u8],
}

impl<'a> RelocationIter<'a> {
    /// The relocation header of the table.
    pub closed spec fn spec_hdr(&self) -> RelocationHeader {
        self.hdr
    }

    /// Where the next relocation starts in the table.
    pub closed spec fn spec_offset(&self) -> int {
        self.offset_bytes as int
    }

    /// The bytes of the table.
    pub closed spec fn spec_data(&self) -> Seq<u8> {
        self.data@
    }

    /// The table is a whole number of relocations, and the walk stands
    /// between two of them.
    pub open spec fn wf(&self) -> bool {
        &&& self.spec_data().len() % 4 == 0
        &&& self.spec_offset() % 4 == 0
        &&& 0 <= self.spec_offset() <= self.spec_data().len()
    }

    /// The next relocation with its kind: the first relocations of a table
    /// are absolute, as many as the header says, and the rest relative.
    /// `None` at the end of the table.
    pub fn next(&mut self) -> (r: Option<(RelocationType, Relocation)>)
        requires
            old(self).wf(),
        ensures
            final(self).wf(),
            final(self).spec_hdr() == old(self).spec_hdr(),
            final(self).spec_data() == old(self).spec_data(),
            match r {
                Some((ty, relocation)) => {
                    &&& old(self).spec_offset() < old(self).spec_data().len()
                    &&& relocation.is_record(old(self).spec_data(), old(self).spec_offset())
                    &&& ty == (if old(self).spec_offset() >= old(self).spec_hdr().abs_count * 4 {
                        RelocationType::Relative
                    } else {
                        RelocationType::Absolute
                    })
                    &&& final(self).spec_offset() == old(self).spec_offset() + 4
                },
                None => {
                    &&& old(self).spec_offset() >= old(self).spec_data().len()
                    &&& final(self).spec_offset() == old(self).spec_offset()
                },
            },
    {
        if self.offset_bytes >= self.data.len() {
            return None;
        }
        let relative_start = self.hdr.abs_count as u64 * 4;
        let relocation = Relocation {
            skip: read_u16_le(self.data, self.offset_bytes),
            patch: read_u16_le(self.data, self.offset_bytes + 2),
        };
        let rel_type = if self.offset_bytes as u64 >= relative_start {
            RelocationType::Relative
        } else {
            RelocationType::Absolute
        };
        self.offset_bytes = self.offset_bytes + RELOCATION_SIZE;
        Some((rel_type, relocation))
    }
}

} // verus!
