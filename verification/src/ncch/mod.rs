//! The executable container: a header of 0x200 bytes with a signature,
//! and after it regions that the header places in media units of 0x200
//! bytes, first of them the extended header.

pub mod exefs;
pub mod exheader;
pub mod romfs;

pub use crate::ncch::exheader::{
    AccessControlInfo, Arm11Flags, Arm11KernelCaps, Arm11LocalSystemCaps, Arm11MemoryType,
    Arm9AccessControl, Arm9Descriptors, CodeSetInfo, Exheader, ExheaderFlags, Flag0, Flag1,
    FsAccessInfo, KernelCap, KernelCapRaw, New3dsSystemMode, Old3dsSystemMode,
    ResourceLimitCategory, StorageInfo, SyscallMask, SystemControlInfo,
};

use vstd::prelude::*;
use crate::bytes::{
    read_array, read_u16_le, read_u32_le, read_u64_le, u16_le_at, u32_le_at, u64_be_bytes,
    u64_le_at, window, write_u64_be,
};
use crate::crypto::{
    aes128_ctr_applied, aes128_ctr_apply, keygen, spec_keygen_outcome, GlobalKeyBag, KeyBag,
    KeyIndex, KeyType,
};
use crate::error::{CytrynaError, CytrynaResult};
use crate::string::SizedCString;
use crate::ncch::exefs::ExeFs;
use crate::ncch::exheader::spec_exheader_ok;
use crate::OwnedOrBorrowed;

verus! {

/// The length of the header.
pub const NCCH_HEADER_SIZE: usize = 0x200;

/// The length of a media unit, in which the header counts offsets and
/// sizes.
pub const MEDIA_UNIT: usize = 0x200;

/// The length of the extended header.
pub const EXHEADER_SIZE: usize = 0x800;

/// The type of a container's content: eight flag bits.
#[derive(Debug, Clone, Copy, PartialEq, Eq, Structural)]
pub struct ContentType {
    pub bits: u8,
}

impl ContentType {
    pub const DATA: u8 = 0x1;

    pub const EXECUTABLE: u8 = 0x2;

    pub const SYSTEMUPDATE: u8 = 0x4;

    pub const MANUAL: u8 = 0x8;

    pub const CHILD: u8 = 0xc;

    pub const TRIAL: u8 = 0x10;

    /// Whether every bit of `flags` is set.
    pub open spec fn spec_contains(self, flags: u8) -> bool {
        self.bits & flags == flags
    }

    /// The flag bits.
    pub fn bits(&self) -> (r: u8)
        ensures
            r == self.bits,
    {
        self.bits
    }

    /// Whether every bit of `flags` is set.
    pub fn contains(&self, flags: u8) -> (r: bool)
        ensures
            r == self.spec_contains(flags),
    {
        self.bits & flags == flags
    }
}

/// The options of a container: eight flag bits.
#[derive(Debug, Clone, Copy, PartialEq, Eq, Structural)]
pub struct NcchFlagsOptions {
    pub bits: u8,
}

impl NcchFlagsOptions {
    pub const FIXED_CRYPTO_KEY: u8 = 0x1;

    pub const NO_MOUNT_ROM_FS: u8 = 0x2;

    pub const NO_CRYPTO: u8 = 0x4;

    pub const NEW_KEY_Y_GENERATOR: u8 = 0x20;

    /// Whether every bit of `flags` is set.
    pub open spec fn spec_contains(self, flags: u8) -> bool {
        self.bits & flags == flags
    }

    /// The flag bits.
    pub fn bits(&self) -> (r: u8)
        ensures
            r == self.bits,
    {
        self.bits
    }

    /// Whether every bit of `flags` is set.
    pub fn contains(&self, flags: u8) -> (r: bool)
        ensures
            r == self.spec_contains(flags),
    {
        self.bits & flags == flags
    }
}

/// The eight flag bytes of the header.
#[derive(Clone, Copy, Debug)]
pub struct NcchFlags {
    pub unk0: u8,
    pub unk1: u8,
    pub unk2: u8,
    pub two_keyslots: u8,
    pub content_platform: u8,
    pub content_type: ContentType,
    pub content_unit_size: u8,
    pub options: NcchFlagsOptions,
}

impl NcchFlags {
    /// Whether the flags are what the eight bytes at `at` say.
    pub open spec fn is_record(&self, bytes: Seq<u8>, at: int) -> bool {
        &&& self.unk0 == bytes[at]
        &&& self.unk1 == bytes[at + 1]
        &&& self.unk2 == bytes[at + 2]
        &&& self.two_keyslots == bytes[at + 3]
        &&& self.content_platform == bytes[at + 4]
        &&& self.content_type.bits == bytes[at + 5]
        &&& self.content_unit_size == bytes[at + 6]
        &&& self.options.bits == bytes[at + 7]
    }

    fn read(bytes: &[u8], at: usize) -> (r: NcchFlags)
        requires
            at + 8 <= bytes.len(),
        ensures
            r.is_record(bytes@, at as int),
    {
        NcchFlags {
            unk0: bytes[at],
            unk1: bytes[at + 1],
            unk2: bytes[at + 2],
            two_keyslots: bytes[at + 3],
            content_platform: bytes[at + 4],
            content_type: ContentType { bits: bytes[at + 5] },
            content_unit_size: bytes[at + 6],
            options: NcchFlagsOptions { bits: bytes[at + 7] },
        }
    }
}

/// The header of a container.
#[derive(Clone, Copy, Debug)]
pub struct NcchHeader {
    pub sig: [u8; 0x100],
    pub magic: [u8; 4],
    pub content_size: u32,
    pub partition_id: u64,
    pub maker_code: SizedCString<2>,
    pub version: u16,
    pub content_lock_seed_hash: u32,
    pub program_id: u64,
    pub logo_region_hash: [u8; 0x20],
    pub product_code: SizedCString<0x10>,
    pub exheader_hash: [u8; 0x20],
    pub exheader_size: u32,
    pub flags: NcchFlags,
    pub plain_offset: u32,
    pub plain_size: u32,
    pub logo_offset: u32,
    pub logo_size: u32,
    pub exefs_offset: u32,
    pub exefs_size: u32,
    pub exefs_hash_size: u32,
    pub romfs_offset: u32,
    pub romfs_size: u32,
    pub romfs_hash_size: u32,
    pub exefs_super_hash: [u8; 0x20],
    pub romfs_super_hash: [u8; 0x20],
}

impl NcchHeader {
    /// Whether the header is what the first 0x200 bytes of `bytes` say,
    /// every number little-endian.
    pub open spec fn is_header_of(&self, bytes: Seq<u8>) -> bool {
        &&& self.sig@ == bytes.subrange(0, 0x100)
        &&& self.magic@ == bytes.subrange(0x100, 0x104)
        &&& self.content_size == u32_le_at(bytes, 0x104)
        &&& self.partition_id == u64_le_at(bytes, 0x108)
        &&& self.maker_code@ == bytes.subrange(0x110, 0x112)
        &&& self.version == u16_le_at(bytes, 0x112)
        &&& self.content_lock_seed_hash == u32_le_at(bytes, 0x114)
        &&& self.program_id == u64_le_at(bytes, 0x118)
        &&& self.logo_region_hash@ == bytes.subrange(0x130, 0x150)
        &&& self.product_code@ == bytes.subrange(0x150, 0x160)
        &&& self.exheader_hash@ == bytes.subrange(0x160, 0x180)
        &&& self.exheader_size == u32_le_at(bytes, 0x180)
        &&& self.flags.is_record(bytes, 0x188)
        &&& self.plain_offset == u32_le_at(bytes, 0x190)
        &&& self.plain_size == u32_le_at(bytes, 0x194)
        &&& self.logo_offset == u32_le_at(bytes, 0x198)
        &&& self.logo_size == u32_le_at(bytes, 0x19c)
        &&& self.exefs_offset == u32_le_at(bytes, 0x1a0)
        &&& self.exefs_size == u32_le_at(bytes, 0x1a4)
        &&& self.exefs_hash_size == u32_le_at(bytes, 0x1a8)
        &&& self.romfs_offset == u32_le_at(bytes, 0x1b0)
        &&& self.romfs_size == u32_le_at(bytes, 0x1b4)
        &&& self.romfs_hash_size == u32_le_at(bytes, 0x1b8)
        &&& self.exefs_super_hash@ == bytes.subrange(0x1c0, 0x1e0)
        &&& self.romfs_super_hash@ == bytes.subrange(0x1e0, 0x200)
    }

    fn read(bytes: &[u8]) -> (r: NcchHeader)
        requires
            bytes.len() >= NCCH_HEADER_SIZE,
        ensures
            r.is_header_of(bytes@),
    {
        NcchHeader {
            sig: read_array::<0x100>(bytes, 0),
            magic: read_array::<4>(bytes, 0x100),
            content_size: read_u32_le(bytes, 0x104),
            partition_id: read_u64_le(bytes, 0x108),
            maker_code: SizedCString(read_array::<2>(bytes, 0x110)),
            version: read_u16_le(bytes, 0x112),
            content_lock_seed_hash: read_u32_le(bytes, 0x114),
            program_id: read_u64_le(bytes, 0x118),
            logo_region_hash: read_array::<0x20>(bytes, 0x130),
            product_code: SizedCString(read_array::<0x10>(bytes, 0x150)),
            exheader_hash: read_array::<0x20>(bytes, 0x160),
            exheader_size: read_u32_le(bytes, 0x180),
            flags: NcchFlags::read(bytes, 0x188),
            plain_offset: read_u32_le(bytes, 0x190),
            plain_size: read_u32_le(bytes, 0x194),
            logo_offset: read_u32_le(bytes, 0x198),
            logo_size: read_u32_le(bytes, 0x19c),
            exefs_offset: read_u32_le(bytes, 0x1a0),
            exefs_size: read_u32_le(bytes, 0x1a4),
            exefs_hash_size: read_u32_le(bytes, 0x1a8),
            romfs_offset: read_u32_le(bytes, 0x1b0),
            romfs_size: read_u32_le(bytes, 0x1b4),
            romfs_hash_size: read_u32_le(bytes, 0x1b8),
            exefs_super_hash: read_array::<0x20>(bytes, 0x1c0),
            romfs_super_hash: read_array::<0x20>(bytes, 0x1e0),
        }
    }
}

/// The magic of a container.
pub open spec fn spec_ncch_magic() -> Seq<u8> {
    seq!['N' as u8, 'C' as u8, 'C' as u8, 'H' as u8]
}

/// Whether `bytes` are a container, and if not, why: they must carry the
/// magic at 0x100, and they must hold a whole header. The magic is looked
/// at first, as soon as the bytes reach that far.
pub open spec fn spec_ncch_ok(bytes: Seq<u8>) -> CytrynaResult<()> {
    if bytes.len() < 0x104 {
        Err(CytrynaError::SliceTooSmall)
    } else if bytes.subrange(0x100, 0x104) != spec_ncch_magic() {
        Err(CytrynaError::InvalidMagic)
    } else if bytes.len() < NCCH_HEADER_SIZE {
        Err(CytrynaError::SliceTooSmall)
    } else {
        Ok(())
    }
}

/// The part of the regions `data` that the header places at `offset`
/// media units from the start of the header, `size` media units long. A
/// zero offset or size stands for a region that is absent; a region that
/// reaches beyond the container is refused with `SliceTooSmall`.
pub open spec fn spec_region(data: Seq<u8>, offset: u32, size: u32) -> CytrynaResult<Seq<u8>> {
    if offset == 0 || size == 0 {
        Err(CytrynaError::MissingRegion)
    } else {
        let start = offset * MEDIA_UNIT - NCCH_HEADER_SIZE;
        let len = size * MEDIA_UNIT;
        if start + len > data.len() {
            Err(CytrynaError::SliceTooSmall)
        } else {
            Ok(data.subrange(start, start + len))
        }
    }
}


/// The initialization vector of the extended header of the program
/// `program_id`: the id big-endian, a byte 1, and seven zero bytes.
pub open spec fn spec_exheader_iv(program_id: u64) -> Seq<u8> {
    u64_be_bytes(program_id) + seq![1u8] + Seq::new(7, |i: int| 0u8)
}

/// The key of the extended header of a container with the signature
/// `sig`, with the keys published to a place: the key derived from the
/// KeyX of slot 0x2c and, as KeyY, the first sixteen bytes of the
/// signature; or the reason why there is none.
pub open spec fn spec_exheader_key(published: Option<KeyBag>, sig: Seq<u8>) -> CytrynaResult<
    Seq<u8>,
> {
    match published {
        None => Err(CytrynaError::NoKeyBag),
        Some(bag) => {
            let slot = KeyIndex::Slot(0x2c, KeyType::X);
            if bag@.contains_key(slot) {
                spec_keygen_outcome(published, bag@[slot], sig.subrange(0, 0x10))
            } else {
                Err(CytrynaError::MissingKey(slot))
            }
        },
    }
}

/// The plaintext of the extended header of a container with the header
/// `header` and the regions `data`, with the keys published to a place, or
/// the reason why there is none. A header that declares no extended
/// header has none. In an encrypted container the plaintext is the first
/// 0x800 bytes of the regions under AES-128-CTR with the key and the
/// initialization vector of the extended header; in any other it is those
/// bytes themselves.
pub open spec fn spec_exheader_plain(
    published: Option<KeyBag>,
    header: NcchHeader,
    data: Seq<u8>,
) -> CytrynaResult<Seq<u8>> {
    if header.exheader_size == 0 {
        Err(CytrynaError::MissingRegion)
    } else if !header.flags.options.spec_contains(NcchFlagsOptions::NO_CRYPTO) {
        match spec_exheader_key(published, header.sig@) {
            Err(e) => Err(e),
            Ok(key) => if data.len() < EXHEADER_SIZE {
                Err(CytrynaError::SliceTooSmall)
            } else {
                Ok(
                    aes128_ctr_applied(
                        key,
                        spec_exheader_iv(header.program_id),
                        data.subrange(0, EXHEADER_SIZE as int),
                    ),
                )
            },
        }
    } else if data.len() < EXHEADER_SIZE {
        Err(CytrynaError::SliceTooSmall)
    } else {
        Ok(data.subrange(0, EXHEADER_SIZE as int))
    }
}

/// What `exheader` gives: the plaintext of the extended header where it
/// can be read as one, and else the reason why there is no plaintext or
/// why it cannot be read.
pub open spec fn spec_exheader(
    published: Option<KeyBag>,
    header: NcchHeader,
    data: Seq<u8>,
) -> CytrynaResult<Seq<u8>> {
    match spec_exheader_plain(published, header, data) {
        Err(e) => Err(e),
        Ok(plain) => match spec_exheader_ok(plain) {
            Err(e) => Err(e),
            Ok(_) => Ok(plain),
        },
    }
}

/// What `exefs` gives: whether the code of the mini filesystem is
/// compressed, or the reason why there is no mini filesystem. The region
/// is marked out first, then the extended header is read for its flags.
pub open spec fn spec_exefs(
    published: Option<KeyBag>,
    header: NcchHeader,
    data: Seq<u8>,
) -> CytrynaResult<bool> {
    match spec_region(data, header.exefs_offset, header.exefs_size) {
        Err(e) => Err(e),
        Ok(_) => match spec_exheader(published, header, data) {
            Err(e) => Err(e),
            Ok(plain) => Ok(plain[0xd] & ExheaderFlags::COMPRESS_EXEFS_CODE
                == ExheaderFlags::COMPRESS_EXEFS_CODE),
        },
    }
}

/// An executable container, read over caller-owned bytes.
#[derive(Debug)]
pub struct Ncch<'a> {
    header: NcchHeader,
    plain_exheader: Option<Exheader>,
    bytes: &'a [u8],
}

impl<'a> Ncch<'a> {
    /// The bytes of the container.
    pub closed spec fn raw(&self) -> Seq<u8> {
        self.bytes@
    }

    /// The header.
    pub closed spec fn spec_header(&self) -> NcchHeader {
        self.header
    }

    /// The extended header as the container holds it, read without
    /// decrypting, where it can be read so.
    pub closed spec fn spec_plain_exheader(&self) -> Option<Exheader> {
        self.plain_exheader
    }

    /// The regions: what follows the header.
    pub open spec fn spec_data(&self) -> Seq<u8> {
        self.raw().skip(NCCH_HEADER_SIZE as int)
    }

    /// The first 0x800 bytes of the regions.
    pub open spec fn spec_exheader_bytes(&self) -> Seq<u8> {
        self.spec_data().subrange(0, EXHEADER_SIZE as int)
    }

    /// Whether the value is a reading of a valid container.
    pub open spec fn wf(&self) -> bool {
        &&& spec_ncch_ok(self.raw()) is Ok
        &&& self.spec_header().is_header_of(self.raw())
        &&& match self.spec_plain_exheader() {
            Some(header) => self.spec_data().len() >= EXHEADER_SIZE && header.is_exheader_of(
                self.spec_exheader_bytes(),
            ),
            None => self.spec_data().len() < EXHEADER_SIZE || spec_exheader_ok(
                self.spec_exheader_bytes(),
            ) is Err,
        }
    }

    /// Reads `what` as a container.
    pub fn from_slice(what: &'a [u8]) -> (r: CytrynaResult<Ncch<'a>>)
        ensures
            match r {
                Ok(ncch) => ncch.wf() && ncch.raw() == what@,
                Err(e) => spec_ncch_ok(what@) == Err::<(), CytrynaError>(e),
            },
    {
        if what.len() < 0x104 {
            return Err(CytrynaError::SliceTooSmall);
        }
        let magic = read_array::<4>(what, 0x100);
        if magic[0] != 'N' as u8 || magic[1] != 'C' as u8 || magic[2] != 'C' as u8 || magic[3]
            != 'H' as u8 {
            assert(what@.subrange(0x100, 0x104) != spec_ncch_magic()) by {
                assert(spec_ncch_magic()[0] == 'N' as u8 && spec_ncch_magic()[1] == 'C' as u8
                    && spec_ncch_magic()[2] == 'C' as u8 && spec_ncch_magic()[3] == 'H' as u8);
            }
            return Err(CytrynaError::InvalidMagic);
        }
        assert(what@.subrange(0x100, 0x104) =~= spec_ncch_magic());
        if what.len() < NCCH_HEADER_SIZE {
            return Err(CytrynaError::SliceTooSmall);
        }
        let data = window(what, NCCH_HEADER_SIZE, what.len() - NCCH_HEADER_SIZE);
        assert(data@ =~= what@.skip(NCCH_HEADER_SIZE as int));
        let plain_exheader = if data.len() >= EXHEADER_SIZE {
            match Exheader::from_bytes(window(data, 0, EXHEADER_SIZE)) {
                Ok(header) => Some(header),
                Err(_) => None,
            }
        } else {
            None
        };
        Ok(Ncch { header: NcchHeader::read(what), plain_exheader, bytes: what })
    }

    /// The header.
    #[must_use]
    pub fn header(&self) -> (r: &NcchHeader)
        ensures
            *r == self.spec_header(),
    {
        &self.header
    }

    /// The flags of the header.
    #[must_use]
    pub fn flags(&self) -> (r: &NcchFlags)
        ensures
            *r == self.spec_header().flags,
    {
        &self.header.flags
    }

    /// The regions: what follows the header.
    pub fn data(&self) -> (r: &'a [u8])
        requires
            self.wf(),
        ensures
            r@ == self.spec_data(),
    {
        let r = window(self.bytes, NCCH_HEADER_SIZE, self.bytes.len() - NCCH_HEADER_SIZE);
        assert(r@ =~= self.spec_data());
        r
    }

    /// Whether the container is encrypted: its options do not say that it
    /// has no encryption.
    #[must_use]
    pub fn is_encrypted(&self) -> (r: bool)
        ensures
            r == !self.spec_header().flags.options.spec_contains(NcchFlagsOptions::NO_CRYPTO),
    {
        !self.header.flags.options.contains(NcchFlagsOptions::NO_CRYPTO)
    }

    /// The region that the header places at `offset` media units from its
    /// own start, `size` media units long.
    pub fn region(&self, offset: u32, size: u32) -> (r: CytrynaResult<&'a [u8]>)
        requires
            self.wf(),
        ensures
            match r {
                Ok(bytes) => spec_region(self.spec_data(), offset, size) == Ok::<
                    Seq<u8>,
                    CytrynaError,
                >(bytes@),
                Err(e) => spec_region(self.spec_data(), offset, size) == Err::<
                    Seq<u8>,
                    CytrynaError,
                >(e),
            },
    {
        if offset == 0 || size == 0 {
            return Err(CytrynaError::MissingRegion);
        }
        let data = self.data();
        let start = offset as u64 * 0x200 - 0x200;
        let len = size as u64 * 0x200;
        if start + len > data.len() as u64 {
            return Err(CytrynaError::SliceTooSmall);
        }
        Ok(window(data, start as usize, len as usize))
    }

    /// The plain region.
    pub fn plain_region(&self) -> (r: CytrynaResult<&'a [u8]>)
        requires
            self.wf(),
        ensures
            match r {
                Ok(bytes) => spec_region(
                    self.spec_data(),
                    self.spec_header().plain_offset,
                    self.spec_header().plain_size,
                ) == Ok::<Seq<u8>, CytrynaError>(bytes@),
                Err(e) => spec_region(
                    self.spec_data(),
                    self.spec_header().plain_offset,
                    self.spec_header().plain_size,
                ) == Err::<Seq<u8>, CytrynaError>(e),
            },
    {
        self.region(self.header.plain_offset, self.header.plain_size)
    }

    /// The logo region.
    pub fn logo_region(&self) -> (r: CytrynaResult<&'a [u8]>)
        requires
            self.wf(),
        ensures
            match r {
                Ok(bytes) => spec_region(
                    self.spec_data(),
                    self.spec_header().logo_offset,
                    self.spec_header().logo_size,
                ) == Ok::<Seq<u8>, CytrynaError>(bytes@),
                Err(e) => spec_region(
                    self.spec_data(),
                    self.spec_header().logo_offset,
                    self.spec_header().logo_size,
                ) == Err::<Seq<u8>, CytrynaError>(e),
            },
    {
        self.region(self.header.logo_offset, self.header.logo_size)
    }

    /// The region of the mini filesystem, as raw bytes.
    pub fn exefs_region(&self) -> (r: CytrynaResult<&'a [u8]>)
        requires
            self.wf(),
        ensures
            match r {
                Ok(bytes) => spec_region(
                    self.spec_data(),
                    self.spec_header().exefs_offset,
                    self.spec_header().exefs_size,
                ) == Ok::<Seq<u8>, CytrynaError>(bytes@),
                Err(e) => spec_region(
                    self.spec_data(),
                    self.spec_header().exefs_offset,
                    self.spec_header().exefs_size,
                ) == Err::<Seq<u8>, CytrynaError>(e),
            },
    {
        self.region(self.header.exefs_offset, self.header.exefs_size)
    }

    /// The region of the read-only filesystem, as raw bytes.
    pub fn romfs_region(&self) -> (r: CytrynaResult<&'a [u8]>)
        requires
            self.wf(),
        ensures
            match r {
                Ok(bytes) => spec_region(
                    self.spec_data(),
                    self.spec_header().romfs_offset,
                    self.spec_header().romfs_size,
                ) == Ok::<Seq<u8>, CytrynaError>(bytes@),
                Err(e) => spec_region(
                    self.spec_data(),
                    self.spec_header().romfs_offset,
                    self.spec_header().romfs_size,
                ) == Err::<Seq<u8>, CytrynaError>(e),
            },
    {
        self.region(self.header.romfs_offset, self.header.romfs_size)
    }

    /// The initialization vector of the extended header.
    fn exheader_iv(program_id: u64) -> (r: [u8; 0x10])
        ensures
            r@ == spec_exheader_iv(program_id),
    {
        let id = write_u64_be(program_id);
        let mut iv = [0u8; 0x10];
        let mut i: usize = 0;
        while i < 8
            invariant
                i <= 8,
                id@ == u64_be_bytes(program_id),
                forall|k: int| 0 <= k < i ==> iv@[k] == id@[k],
                forall|k: int| i <= k < 16 ==> iv@[k] == 0,
            decreases 8 - i,
        {
            iv[i] = id[i];
            i = i + 1;
        }
        iv[8] = 1;
        assert(iv@ =~= spec_exheader_iv(program_id));
        iv
    }

    /// The key of the extended header.
    fn exheader_key(&self, global: &GlobalKeyBag) -> (r: CytrynaResult<[u8; 0x10]>)
        ensures
            match r {
                Ok(key) => spec_exheader_key(global.published(), self.spec_header().sig@) == Ok::<
                    Seq<u8>,
                    CytrynaError,
                >(key@),
                Err(e) => spec_exheader_key(global.published(), self.spec_header().sig@) == Err::<
                    Seq<u8>,
                    CytrynaError,
                >(e),
            },
    {
        let bag = match KeyBag::global(global) {
            Ok(bag) => bag,
            Err(e) => {
                return Err(e);
            },
        };
        let x = match bag.get_key(KeyIndex::Slot(0x2c, KeyType::X)) {
            Ok(key) => *key,
            Err(e) => {
                return Err(e);
            },
        };
        let y = read_array::<0x10>(self.header.sig.as_slice(), 0);
        keygen(global, x, y)
    }

    /// The extended header: decrypted into a value of its own where the
    /// container is encrypted, and borrowed from the container where it is
    /// not.
    pub fn exheader<'b>(&'b self, global: &GlobalKeyBag) -> (r: CytrynaResult<
        OwnedOrBorrowed<'b, Exheader>,
    >)
        requires
            self.wf(),
        ensures
            match r {
                Ok(header) => {
                    &&& (header is Owned <==> !self.spec_header().flags.options.spec_contains(
                        NcchFlagsOptions::NO_CRYPTO,
                    ))
                    &&& spec_exheader(
                        global.published(),
                        self.spec_header(),
                        self.spec_data(),
                    ) matches Ok(plain) && header.value().is_exheader_of(plain)
                },
                Err(e) => spec_exheader(global.published(), self.spec_header(), self.spec_data())
                    == Err::<Seq<u8>, CytrynaError>(e),
            },
    {
        if self.header.exheader_size == 0 {
            return Err(CytrynaError::MissingRegion);
        }
        let data = self.data();
        if self.is_encrypted() {
            let key = match self.exheader_key(global) {
                Ok(key) => key,
                Err(e) => {
                    return Err(e);
                },
            };
            let iv = Self::exheader_iv(self.header.program_id);
            if data.len() < EXHEADER_SIZE {
                return Err(CytrynaError::SliceTooSmall);
            }
            let inp = window(data, 0, EXHEADER_SIZE);
            let out = match aes128_ctr_apply(&key, &iv, inp) {
                Ok(out) => out,
                Err(e) => {
                    return Err(CytrynaError::StreamCrypt(e));
                },
            };
            match Exheader::from_bytes(out.as_slice()) {
                Ok(header) => Ok(OwnedOrBorrowed::Owned(Box::new(header))),
                Err(e) => Err(e),
            }
        } else {
            if data.len() < EXHEADER_SIZE {
                return Err(CytrynaError::SliceTooSmall);
            }
            match &self.plain_exheader {
                Some(header) => Ok(OwnedOrBorrowed::Borrowed(header)),
                None => match Exheader::from_bytes(window(data, 0, EXHEADER_SIZE)) {
                    Ok(_) => vstd::pervasive::unreached(),
                    Err(e) => Err(e),
                },
            }
        }
    }

    /// The mini filesystem, with what the container says of it.
    pub fn exefs(&self, global: &GlobalKeyBag) -> (r: CytrynaResult<ExeFs<'a>>)
        requires
            self.wf(),
        ensures
            match r {
                Ok(fs) => {
                    &&& spec_exefs(global.published(), self.spec_header(), self.spec_data())
                        == Ok::<bool, CytrynaError>(fs.spec_compressed())
                    &&& fs.spec_encrypted() == !self.spec_header().flags.options.spec_contains(
                        NcchFlagsOptions::NO_CRYPTO,
                    )
                    &&& spec_region(
                        self.spec_data(),
                        self.spec_header().exefs_offset,
                        self.spec_header().exefs_size,
                    ) matches Ok(bytes) && fs.spec_inner().is_reading_of(bytes)
                },
                Err(e) => spec_exefs(global.published(), self.spec_header(), self.spec_data())
                    == Err::<bool, CytrynaError>(e),
            },
    {
        let data = match self.exefs_region() {
            Ok(data) => data,
            Err(e) => {
                return Err(e);
            },
        };
        let compressed = match self.exheader(global) {
            Ok(header) => header.deref().sci.flags.contains(ExheaderFlags::COMPRESS_EXEFS_CODE),
            Err(e) => {
                return Err(e);
            },
        };
        match ExeFs::new(compressed, self.is_encrypted(), data) {
            Ok(fs) => Ok(fs),
            Err(_) => vstd::pervasive::unreached(),
        }
    }
}

} // verus!
