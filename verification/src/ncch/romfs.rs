//! The header of the read-only filesystem of an executable container.

use vstd::prelude::*;
use crate::bytes::{read_array, read_u32_le, read_u64_le, u32_le_at, u64_le_at};
use crate::error::{CytrynaError, CytrynaResult};
use crate::string::SizedCString;

verus! {

/// The length of the header.
pub const ROMFS_HEADER_SIZE: usize = 0x5c;

/// The header of a read-only filesystem: its magic, the size of the master
/// hash, and for each of the three levels of its hash tree the logical
/// offset, the size of the hashed data and the block size.
#[derive(Clone, Copy, Debug)]
pub struct RomfsHeader {
    pub magic: SizedCString<4>,
    pub magic_number: u32,
    pub master_hash_size: u32,
    pub lv1_logical_offset: u64,
    pub lv1_hashdata_size: u64,
    pub lv1_block_size: u32,
    pub lv2_logical_offset: u64,
    pub lv2_hashdata_size: u64,
    pub lv2_block_size: u32,
    pub lv3_logical_offset: u64,
    pub lv3_hashdata_size: u64,
    pub lv3_block_size: u32,
    pub optional_info_size: u32,
}

impl RomfsHeader {
    /// Whether the header is what the first 0x5c bytes of `bytes` say,
    /// every number little-endian and the fields packed without gaps but
    /// for the reserved bytes after each block size.
    pub open spec fn is_header_of(&self, bytes: Seq<u8>) -> bool {
        &&& self.magic@ == bytes.subrange(0, 4)
        &&& self.magic_number == u32_le_at(bytes, 4)
        &&& self.master_hash_size == u32_le_at(bytes, 8)
        &&& self.lv1_logical_offset == u64_le_at(bytes, 0xc)
        &&& self.lv1_hashdata_size == u64_le_at(bytes, 0x14)
        &&& self.lv1_block_size == u32_le_at(bytes, 0x1c)
        &&& self.lv2_logical_offset == u64_le_at(bytes, 0x24)
        &&& self.lv2_hashdata_size == u64_le_at(bytes, 0x2c)
        &&& self.lv2_block_size == u32_le_at(bytes, 0x34)
        &&& self.lv3_logical_offset == u64_le_at(bytes, 0x3c)
        &&& self.lv3_hashdata_size == u64_le_at(bytes, 0x44)
        &&& self.lv3_block_size == u32_le_at(bytes, 0x4c)
        &&& self.optional_info_size == u32_le_at(bytes, 0x58)
    }

    /// Reads the header from the start of `bytes`.
    pub fn from_bytes(bytes: &[u8]) -> (r: CytrynaResult<RomfsHeader>)
        ensures
            match r {
                Ok(header) => bytes@.len() >= ROMFS_HEADER_SIZE && header.is_header_of(bytes@),
                Err(e) => bytes@.len() < ROMFS_HEADER_SIZE && e == CytrynaError::SliceTooSmall,
            },
    {
        if bytes.len() < ROMFS_HEADER_SIZE {
            return Err(CytrynaError::SliceTooSmall);
        }
        Ok(
            RomfsHeader {
                magic: SizedCString(read_array::<4>(bytes, 0)),
                magic_number: read_u32_le(bytes, 4),
                master_hash_size: read_u32_le(bytes, 8),
                lv1_logical_offset: read_u64_le(bytes, 0xc),
                lv1_hashdata_size: read_u64_le(bytes, 0x14),
                lv1_block_size: read_u32_le(bytes, 0x1c),
                lv2_logical_offset: read_u64_le(bytes, 0x24),
                lv2_hashdata_size: read_u64_le(bytes, 0x2c),
                lv2_block_size: read_u32_le(bytes, 0x34),
                lv3_logical_offset: read_u64_le(bytes, 0x3c),
                lv3_hashdata_size: read_u64_le(bytes, 0x44),
                lv3_block_size: read_u32_le(bytes, 0x4c),
                optional_info_size: read_u32_le(bytes, 0x58),
            },
        )
    }
}

} // verus!
