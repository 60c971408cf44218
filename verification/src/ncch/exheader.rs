//! The extended header of an executable container: the system control
//! info, the access control info, a signature and a public key, and a
//! second access control info.

use vstd::prelude::*;
use vstd::std_specs::bits::u32_leading_ones;
use crate::bytes::{
    read_array, read_u16_le, read_u32_le, read_u64_le, u16_le_at, u32_le_at, u64_le_at,
};
use crate::error::{CytrynaError, CytrynaResult};
use crate::string::SizedCString;
use crate::titleid::MaybeTitleId;

verus! {

/// The length of the extended header.
pub const EXHEADER_LEN: usize = 0x800;

/// The flags of the system control info: eight flag bits.
#[derive(Debug, Clone, Copy, PartialEq, Eq, Structural)]
pub struct ExheaderFlags {
    pub bits: u8,
}

impl ExheaderFlags {
    pub const COMPRESS_EXEFS_CODE: u8 = 0x1;

    pub const SD_APPLICATION: u8 = 0x2;

    /// Whether every bit of `flags` is set.
    pub open spec fn spec_contains(self, flags: u8) -> bool {
        self.bits & flags == flags
    }

    /// The flag bits.
    pub fn bits(&self) -> (r: u8)
        ensures
            r == self.bits,
    {
        self.bits
    }

    /// Whether every bit of `flags` is set.
    pub fn contains(&self, flags: u8) -> (r: bool)
        ensures
            r == self.spec_contains(flags),
    {
        self.bits & flags == flags
    }
}

/// Where a code set lies and how long it is.
#[derive(Debug, Clone, Copy, PartialEq, Eq, Structural)]
pub struct CodeSetInfo {
    pub addr: u32,
    pub phys_region_size_pages: u32,
    pub size_bytes: u32,
}

impl CodeSetInfo {
    /// Whether the info is what the twelve bytes at `at` say.
    pub open spec fn is_record(&self, bytes: Seq<u8>, at: int) -> bool {
        &&& self.addr == u32_le_at(bytes, at)
        &&& self.phys_region_size_pages == u32_le_at(bytes, at + 4)
        &&& self.size_bytes == u32_le_at(bytes, at + 8)
    }

    fn read(bytes: &[u8], at: usize) -> (r: CodeSetInfo)
        requires
            at + 0xc <= bytes.len(),
        ensures
            r.is_record(bytes@, at as int),
    {
        CodeSetInfo {
            addr: read_u32_le(bytes, at),
            phys_region_size_pages: read_u32_le(bytes, at + 4),
            size_bytes: read_u32_le(bytes, at + 8),
        }
    }
}

/// The system control info: 0x200 bytes.
#[derive(Debug, Clone, Copy)]
pub struct SystemControlInfo {
    pub app_title: SizedCString<0x8>,
    pub flags: ExheaderFlags,
    pub remaster_version: u16,
    pub text_code_set_info: CodeSetInfo,
    pub stack_size: u32,
    pub read_only_code_set_info: CodeSetInfo,
    pub data_code_set_info: CodeSetInfo,
    pub bss_size: u32,
    pub dep_list: [MaybeTitleId; 0x30],
    pub savedata_size: u64,
    pub jump_id: u64,
}

impl SystemControlInfo {
    /// Whether the info is what the 0x200 bytes at `at` say.
    pub open spec fn is_record(&self, bytes: Seq<u8>, at: int) -> bool {
        &&& self.app_title@ == bytes.subrange(at, at + 8)
        &&& self.flags.bits == bytes[at + 0xd]
        &&& self.remaster_version == u16_le_at(bytes, at + 0xe)
        &&& self.text_code_set_info.is_record(bytes, at + 0x10)
        &&& self.stack_size == u32_le_at(bytes, at + 0x1c)
        &&& self.read_only_code_set_info.is_record(bytes, at + 0x20)
        &&& self.data_code_set_info.is_record(bytes, at + 0x30)
        &&& self.bss_size == u32_le_at(bytes, at + 0x3c)
        &&& forall|i: int|
            0 <= i < 0x30 ==> (#[trigger] self.dep_list@[i]).raw == u64_le_at(
                bytes,
                at + 0x40 + 8 * i,
            )
        &&& self.savedata_size == u64_le_at(bytes, at + 0x1c0)
        &&& self.jump_id == u64_le_at(bytes, at + 0x1c8)
    }

    fn read(bytes: &[u8], at: usize) -> (r: SystemControlInfo)
        requires
            at + 0x200 <= bytes.len(),
        ensures
            r.is_record(bytes@, at as int),
    {
        let mut dep_list = [MaybeTitleId { raw: 0 };0x30];
        let mut i: usize = 0;
        while i < 0x30
            invariant
                i <= 0x30,
                at + 0x200 <= bytes.len(),
                forall|k: int|
                    0 <= k < i ==> (#[trigger] dep_list@[k]).raw == u64_le_at(
                        bytes@,
                        at + 0x40 + 8 * k,
                    ),
            decreases 0x30 - i,
        {
            dep_list[i] = MaybeTitleId { raw: read_u64_le(bytes, at + 0x40 + 8 * i) };
            i = i + 1;
        }
        SystemControlInfo {
            app_title: SizedCString(read_array::<8>(bytes, at)),
            flags: ExheaderFlags { bits: bytes[at + 0xd] },
            remaster_version: read_u16_le(bytes, at + 0xe),
            text_code_set_info: CodeSetInfo::read(bytes, at + 0x10),
            stack_size: read_u32_le(bytes, at + 0x1c),
            read_only_code_set_info: CodeSetInfo::read(bytes, at + 0x20),
            data_code_set_info: CodeSetInfo::read(bytes, at + 0x30),
            bss_size: read_u32_le(bytes, at + 0x3c),
            dep_list,
            savedata_size: read_u64_le(bytes, at + 0x1c0),
            jump_id: read_u64_le(bytes, at + 0x1c8),
        }
    }
}

/// How much memory an application gets on the older console.
#[allow(non_camel_case_types)]
#[derive(Debug, Clone, Copy, PartialEq, Eq, Structural)]
pub enum Old3dsSystemMode {
    /// Prod: 64 MB for the application.
    Prod64Mb,
    /// Undefined; unusable.
    Undefined,
    /// Dev1: 96 MB for the application.
    Dev1_96Mb,
    /// Dev2: 80 MB for the application.
    Dev2_80Mb,
    /// Dev3: 72 MB for the application.
    Dev3_72Mb,
    /// Dev4: 32 MB for the application.
    Dev4_32Mb,
}

impl Old3dsSystemMode {
    /// The number that stands for the mode.
    pub open spec fn spec_into_bits(self) -> u8 {
        match self {
            Old3dsSystemMode::Prod64Mb => 0,
            Old3dsSystemMode::Undefined => 1,
            Old3dsSystemMode::Dev1_96Mb => 2,
            Old3dsSystemMode::Dev2_80Mb => 3,
            Old3dsSystemMode::Dev3_72Mb => 4,
            Old3dsSystemMode::Dev4_32Mb => 5,
        }
    }

    /// The number that stands for the mode.
    pub fn into_bits(self) -> (r: u8)
        ensures
            r == self.spec_into_bits(),
    {
        match self {
            Old3dsSystemMode::Prod64Mb => 0,
            Old3dsSystemMode::Undefined => 1,
            Old3dsSystemMode::Dev1_96Mb => 2,
            Old3dsSystemMode::Dev2_80Mb => 3,
            Old3dsSystemMode::Dev3_72Mb => 4,
            Old3dsSystemMode::Dev4_32Mb => 5,
        }
    }

    /// The mode that the number `value` stands for.
    pub fn from_bits(value: u8) -> (r: Self)
        requires
            value <= 5,
        ensures
            r.spec_into_bits() == value,
    {
        if value == 0 {
            Old3dsSystemMode::Prod64Mb
        } else if value == 1 {
            Old3dsSystemMode::Undefined
        } else if value == 2 {
            Old3dsSystemMode::Dev1_96Mb
        } else if value == 3 {
            Old3dsSystemMode::Dev2_80Mb
        } else if value == 4 {
            Old3dsSystemMode::Dev3_72Mb
        } else {
            Old3dsSystemMode::Dev4_32Mb
        }
    }
}

/// The first flag byte of the local system capabilities: the ideal
/// processor in bits 0 and 1, the affinity mask in bits 2 and 3, the system
/// mode of the older console in bits 4 to 7.
#[derive(Debug, Clone, Copy, PartialEq, Eq, Structural)]
pub struct Flag0 {
    pub bits: u8,
}

impl Flag0 {
    /// The flags with exactly these bits.
    pub fn from_bits(bits: u8) -> (r: Flag0)
        ensures
            r.bits == bits,
    {
        Flag0 { bits }
    }

    /// The bits of the flags.
    pub fn into_bits(self) -> (r: u8)
        ensures
            r == self.bits,
    {
        self.bits
    }

    /// The ideal processor: bits 0 and 1.
    pub fn ideal_proccessor(&self) -> (r: u8)
        ensures
            r == self.bits & 3,
    {
        self.bits & 3
    }

    /// The affinity mask: bits 2 and 3.
    pub fn affinity_mask(&self) -> (r: u8)
        ensures
            r == (self.bits >> 2) & 3,
    {
        (self.bits >> 2) & 3
    }

    /// The system mode of the older console: bits 4 to 7, where they stand
    /// for a mode.
    pub fn old3ds_system_mode(&self) -> (r: Old3dsSystemMode)
        requires
            self.bits >> 4 <= 5,
        ensures
            r.spec_into_bits() == self.bits >> 4,
    {
        Old3dsSystemMode::from_bits(self.bits >> 4)
    }
}

/// The second flag byte of the local system capabilities.
#[derive(Debug, Clone, Copy, PartialEq, Eq, Structural)]
pub struct Flag1 {
    pub bits: u8,
}

impl Flag1 {
    /// The flags with exactly these bits.
    pub fn from_bits(bits: u8) -> (r: Flag1)
        ensures
            r.bits == bits,
    {
        Flag1 { bits }
    }

    /// The bits of the flags.
    pub fn into_bits(self) -> (r: u8)
        ensures
            r == self.bits,
    {
        self.bits
    }

    /// Whether the L2 cache is enabled: bit 0.
    pub fn enable_l2_cache(&self) -> (r: bool)
        ensures
            r == (self.bits & 1 != 0),
    {
        self.bits & 1 != 0
    }

    /// Whether the processor runs at 804 MHz: bit 1.
    pub fn cpuspeed_804mhz(&self) -> (r: bool)
        ensures
            r == (self.bits & 2 != 0),
    {
        self.bits & 2 != 0
    }
}

/// How much memory an application gets on the newer console.
#[allow(non_camel_case_types)]
#[derive(Debug, Clone, Copy, PartialEq, Eq, Structural)]
pub enum New3dsSystemMode {
    /// Legacy: as the mode of the older console says.
    Legacy,
    /// Prod: 124 MB for the application.
    Prod124Mb,
    /// Dev1: 178 MB for the application.
    Dev1_178Mb,
    /// Dev2: 124 MB for the application.
    Dev2_124Mb,
}

impl New3dsSystemMode {
    /// The number that stands for the mode.
    pub open spec fn spec_code(self) -> u8 {
        match self {
            New3dsSystemMode::Legacy => 0,
            New3dsSystemMode::Prod124Mb => 1,
            New3dsSystemMode::Dev1_178Mb => 2,
            New3dsSystemMode::Dev2_124Mb => 3,
        }
    }

    /// The mode that a number stands for, if it stands for one.
    pub fn from_code(code: u8) -> (r: Option<New3dsSystemMode>)
        ensures
            match r {
                Some(mode) => mode.spec_code() == code,
                None => code > 3,
            },
    {
        if code == 0 {
            Some(New3dsSystemMode::Legacy)
        } else if code == 1 {
            Some(New3dsSystemMode::Prod124Mb)
        } else if code == 2 {
            Some(New3dsSystemMode::Dev1_178Mb)
        } else if code == 3 {
            Some(New3dsSystemMode::Dev2_124Mb)
        } else {
            None
        }
    }
}

/// The category of resource limits that a process runs under.
#[derive(Debug, Clone, Copy, PartialEq, Eq, Structural)]
pub enum ResourceLimitCategory {
    Application,
    SysApplet,
    LibApplet,
    Other,
}

impl ResourceLimitCategory {
    /// The number that stands for the category.
    pub open spec fn spec_code(self) -> u8 {
        match self {
            ResourceLimitCategory::Application => 0,
            ResourceLimitCategory::SysApplet => 1,
            ResourceLimitCategory::LibApplet => 2,
            ResourceLimitCategory::Other => 3,
        }
    }

    /// The category that a number stands for, if it stands for one.
    pub fn from_code(code: u8) -> (r: Option<ResourceLimitCategory>)
        ensures
            match r {
                Some(category) => category.spec_code() == code,
                None => code > 3,
            },
    {
        if code == 0 {
            Some(ResourceLimitCategory::Application)
        } else if code == 1 {
            Some(ResourceLimitCategory::SysApplet)
        } else if code == 2 {
            Some(ResourceLimitCategory::LibApplet)
        } else if code == 3 {
            Some(ResourceLimitCategory::Other)
        } else {
            None
        }
    }
}

/// What a process may do with the filesystem: 64 flag bits.
#[derive(Debug, Clone, Copy, PartialEq, Eq, Structural)]
pub struct FsAccessInfo {
    pub bits: u64,
}

impl FsAccessInfo {
    pub const CAT_SYSTEM_APPLICATION: u64 = 0x1;

    pub const CAT_HARDWARE_CHECK: u64 = 0x2;

    pub const CAT_FILESYSTEM_TOOL: u64 = 0x4;

    pub const DEBUG: u64 = 0x8;

    pub const TWL_CARD_BACKUP: u64 = 0x10;

    pub const TWL_NAND_DATA: u64 = 0x20;

    pub const BOSS: u64 = 0x40;

    pub const SDMC: u64 = 0x80;

    pub const CORE: u64 = 0x100;

    pub const NANDRO_READONLY: u64 = 0x200;

    pub const NANDRW: u64 = 0x400;

    pub const NANDRO_WRITE_ACCESS: u64 = 0x800;

    pub const CAT_SYSTEM_SETTINGS: u64 = 0x1000;

    pub const CARDBOARD: u64 = 0x2000;

    pub const EXPORT_IMPORT_IVS: u64 = 0x4000;

    pub const SDMC_WRITEONLY: u64 = 0x8000;

    pub const SWITCH_CLEANUP: u64 = 0x1_0000;

    pub const SAVEDATA_MOVE: u64 = 0x2_0000;

    pub const SHOP: u64 = 0x4_0000;

    pub const SHELL: u64 = 0x8_0000;

    pub const CAT_HOME_MENU: u64 = 0x10_0000;

    pub const SEED_DB: u64 = 0x20_0000;

    /// Whether every bit of `flags` is set.
    pub open spec fn spec_contains(self, flags: u64) -> bool {
        self.bits & flags == flags
    }

    /// The flag bits.
    pub fn bits(&self) -> (r: u64)
        ensures
            r == self.bits,
    {
        self.bits
    }

    /// Whether every bit of `flags` is set.
    pub fn contains(&self, flags: u64) -> (r: bool)
        ensures
            r == self.spec_contains(flags),
    {
        self.bits & flags == flags
    }
}

/// The storage that a process may reach: 0x20 bytes.
#[derive(Debug, Clone, Copy, PartialEq, Eq, Structural)]
pub struct StorageInfo {
    pub extdata_id: u64,
    pub system_savedata_id: u64,
    pub storage_access_unique_id: u64,
    pub access_info: FsAccessInfo,
}

impl StorageInfo {
    /// Whether the info is what the 0x20 bytes at `at` say.
    pub open spec fn is_record(&self, bytes: Seq<u8>, at: int) -> bool {
        &&& self.extdata_id == u64_le_at(bytes, at)
        &&& self.system_savedata_id == u64_le_at(bytes, at + 8)
        &&& self.storage_access_unique_id == u64_le_at(bytes, at + 0x10)
        &&& self.access_info.bits == u64_le_at(bytes, at + 0x18)
    }

    fn read(bytes: &[u8], at: usize) -> (r: StorageInfo)
        requires
            at + 0x20 <= bytes.len(),
        ensures
            r.is_record(bytes@, at as int),
    {
        StorageInfo {
            extdata_id: read_u64_le(bytes, at),
            system_savedata_id: read_u64_le(bytes, at + 8),
            storage_access_unique_id: read_u64_le(bytes, at + 0x10),
            access_info: FsAccessInfo { bits: read_u64_le(bytes, at + 0x18) },
        }
    }
}

/// The local system capabilities of the ARM11 core: 0x170 bytes.
#[derive(Debug, Clone, Copy)]
pub struct Arm11LocalSystemCaps {
    pub program_id: MaybeTitleId,
    pub core_version: u32,
    pub n3ds_sysmode: New3dsSystemMode,
    pub flag1: Flag1,
    pub flag0: Flag0,
    pub priority: u8,
    pub resource_limit_desc: [u8; 0x20],
    pub storage_info: StorageInfo,
    pub service_access_control: [SizedCString<0x8>; 0x22],
    pub resource_limit_category: ResourceLimitCategory,
}

impl Arm11LocalSystemCaps {
    /// Whether the 0x170 bytes at `at` can be read: the byte of the system
    /// mode at 0xc and the byte of the resource limit category at 0x16f
    /// must each stand for a variant.
    pub open spec fn spec_ok(bytes: Seq<u8>, at: int) -> CytrynaResult<()> {
        if bytes[at + 0xc] > 3 {
            Err(CytrynaError::EnumValueOutOfRange("New3dsSystemMode"))
        } else if bytes[at + 0x16f] > 3 {
            Err(CytrynaError::EnumValueOutOfRange("ResourceLimitCategory"))
        } else {
            Ok(())
        }
    }

    /// Whether the capabilities are what the 0x170 bytes at `at` say.
    pub open spec fn is_record(&self, bytes: Seq<u8>, at: int) -> bool {
        &&& self.program_id.raw == u64_le_at(bytes, at)
        &&& self.core_version == u32_le_at(bytes, at + 8)
        &&& self.n3ds_sysmode.spec_code() == bytes[at + 0xc]
        &&& self.flag1.bits == bytes[at + 0xd]
        &&& self.flag0.bits == bytes[at + 0xe]
        &&& self.priority == bytes[at + 0xf]
        &&& self.resource_limit_desc@ == bytes.subrange(at + 0x10, at + 0x30)
        &&& self.storage_info.is_record(bytes, at + 0x30)
        &&& forall|i: int|
            0 <= i < 0x22 ==> (#[trigger] self.service_access_control@[i])@ == bytes.subrange(
                at + 0x50 + 8 * i,
                at + 0x58 + 8 * i,
            )
        &&& self.resource_limit_category.spec_code() == bytes[at + 0x16f]
    }

    fn read(bytes: &[u8], at: usize) -> (r: CytrynaResult<Arm11LocalSystemCaps>)
        requires
            at + 0x170 <= bytes.len(),
        ensures
            match r {
                Ok(caps) => Self::spec_ok(bytes@, at as int) is Ok && caps.is_record(
                    bytes@,
                    at as int,
                ),
                Err(e) => Self::spec_ok(bytes@, at as int) == Err::<(), CytrynaError>(e),
            },
    {
        let n3ds_sysmode = match New3dsSystemMode::from_code(bytes[at + 0xc]) {
            Some(mode) => mode,
            None => {
                return Err(CytrynaError::EnumValueOutOfRange("New3dsSystemMode"));
            },
        };
        let resource_limit_category = match ResourceLimitCategory::from_code(bytes[at + 0x16f]) {
            Some(category) => category,
            None => {
                return Err(CytrynaError::EnumValueOutOfRange("ResourceLimitCategory"));
            },
        };
        let mut service_access_control = [SizedCString([0u8;8]);0x22];
        let mut i: usize = 0;
        while i < 0x22
            invariant
                i <= 0x22,
                at + 0x170 <= bytes.len(),
                forall|k: int|
                    0 <= k < i ==> (#[trigger] service_access_control@[k])@ == bytes@.subrange(
                        at + 0x50 + 8 * k,
                        at + 0x58 + 8 * k,
                    ),
            decreases 0x22 - i,
        {
            service_access_control[i] = SizedCString(read_array::<8>(bytes, at + 0x50 + 8 * i));
            i = i + 1;
        }
        Ok(
            Arm11LocalSystemCaps {
                program_id: MaybeTitleId { raw: read_u64_le(bytes, at) },
                core_version: read_u32_le(bytes, at + 8),
                n3ds_sysmode,
                flag1: Flag1 { bits: bytes[at + 0xd] },
                flag0: Flag0 { bits: bytes[at + 0xe] },
                priority: bytes[at + 0xf],
                resource_limit_desc: read_array::<0x20>(bytes, at + 0x10),
                storage_info: StorageInfo::read(bytes, at + 0x30),
                service_access_control,
                resource_limit_category,
            },
        )
    }
}

/// One kernel capability descriptor as the extended header stores it.
#[derive(Debug, Clone, Copy, PartialEq, Eq, Structural)]
pub struct KernelCapRaw(pub u32);

/// The mask of the system calls that a process may make: the calls of one
/// group of 24, a bit for each in bits 0 to 23, and the number of the group
/// in bits 24 to 26.
#[derive(Debug, Clone, Copy, PartialEq, Eq, Structural)]
pub struct SyscallMask {
    pub bits: u32,
}

impl SyscallMask {
    /// The bits of the calls of the group.
    pub open spec fn spec_mask(self) -> u32 {
        self.bits & 0xff_ffff
    }

    /// The number of the group.
    pub open spec fn spec_idx(self) -> u8 {
        ((self.bits >> 24) & 7) as u8
    }

    /// Whether the mask allows system call `num`: the call belongs to the
    /// group of the mask, and its bit is set.
    pub open spec fn spec_has_syscall(self, num: u8) -> bool {
        self.spec_idx() == num / 24 && self.spec_mask() & (1u32 << ((num % 24) as u32)) != 0
    }

    /// The mask with exactly these bits.
    pub fn from_bits(bits: u32) -> (r: SyscallMask)
        ensures
            r.bits == bits,
    {
        SyscallMask { bits }
    }

    /// The bits of the mask.
    pub fn into_bits(self) -> (r: u32)
        ensures
            r == self.bits,
    {
        self.bits
    }

    /// The bits of the calls of the group.
    pub fn mask(&self) -> (r: u32)
        ensures
            r == self.spec_mask(),
    {
        self.bits & 0xff_ffff
    }

    /// The number of the group.
    pub fn idx(&self) -> (r: u8)
        ensures
            r == self.spec_idx(),
            r <= 7,
    {
        let bits = self.bits;
        let v = (bits >> 24) & 7;
        assert(v <= 7) by (bit_vector)
            requires
                v == (bits >> 24) & 7,
        ;
        v as u8
    }

    /// The numbers of the system calls that the mask allows, in rising
    /// order: those of the 24 calls of its group whose bit is set.
    pub fn syscalls(&self) -> (r: Vec<u8>)
        ensures
            r@ == spec_allowed(*self, 24),
    {
        let first = self.idx() * 24;
        let mut out: Vec<u8> = Vec::new();
        let mut k: u8 = 0;
        while k < 24
            invariant
                k <= 24,
                first == self.spec_idx() * 24,
                first <= 168,
                out@ == spec_allowed(*self, k as int),
            decreases 24 - k,
        {
            if self.has_syscall(first + k) {
                out.push(first + k);
            }
            k = k + 1;
        }
        out
    }

    /// Whether the mask allows system call `num`. A mask of another group
    /// may allow it where this one does not.
    #[must_use]
    pub fn has_syscall(&self, num: u8) -> (r: bool)
        ensures
            r == self.spec_has_syscall(num),
    {
        let rem = num % 24;
        let idx = num / 24;
        if self.idx() != idx {
            false
        } else {
            self.mask() & (1u32 << (rem as u32)) != 0
        }
    }
}

/// The numbers of the first `n` system calls of the group of `mask` that
/// the mask allows, in rising order.
pub open spec fn spec_allowed(mask: SyscallMask, n: int) -> Seq<u8>
    decreases n,
{
    if n <= 0 {
        Seq::empty()
    } else {
        let num = (mask.spec_idx() * 24 + n - 1) as u8;
        if mask.spec_has_syscall(num) {
            spec_allowed(mask, n - 1).push(num)
        } else {
            spec_allowed(mask, n - 1)
        }
    }
}

/// The kind of memory that a process runs in.
#[derive(Debug, Clone, Copy, PartialEq, Eq, Structural)]
pub enum Arm11MemoryType {
    Application,
    System,
    Base,
}

impl Arm11MemoryType {
    /// The number that stands for the kind.
    pub open spec fn spec_into_bits(self) -> u32 {
        match self {
            Arm11MemoryType::Application => 1,
            Arm11MemoryType::System => 2,
            Arm11MemoryType::Base => 3,
        }
    }

    /// The number that stands for the kind.
    pub fn into_bits(self) -> (r: u32)
        ensures
            r == self.spec_into_bits(),
    {
        match self {
            Arm11MemoryType::Application => 1,
            Arm11MemoryType::System => 2,
            Arm11MemoryType::Base => 3,
        }
    }

    /// The kind that the number `value` stands for.
    pub fn from_bits(value: u32) -> (r: Self)
        requires
            1 <= value <= 3,
        ensures
            r.spec_into_bits() == value,
    {
        if value == 1 {
            Arm11MemoryType::Application
        } else if value == 2 {
            Arm11MemoryType::System
        } else {
            Arm11MemoryType::Base
        }
    }
}

/// The kernel flags of a process: a bit each for eight permissions in bits
/// 0 to 7, the kind of memory in bits 8 to 11, and two more permissions in
/// bits 12 and 13.
#[derive(Debug, Clone, Copy, PartialEq, Eq, Structural)]
pub struct Arm11Flags {
    pub bits: u32,
}

impl Arm11Flags {
    /// Whether bit `n` is set.
    pub open spec fn spec_bit(self, n: u32) -> bool {
        self.bits & (1u32 << n) != 0
    }

    /// The flags with exactly these bits.
    pub fn from_bits(bits: u32) -> (r: Arm11Flags)
        ensures
            r.bits == bits,
    {
        Arm11Flags { bits }
    }

    /// The bits of the flags.
    pub fn into_bits(self) -> (r: u32)
        ensures
            r == self.bits,
    {
        self.bits
    }

    pub fn allow_debug(&self) -> (r: bool)
        ensures
            r == self.spec_bit(0),
    {
        self.bits & (1u32 << 0u32) != 0
    }

    pub fn force_debug(&self) -> (r: bool)
        ensures
            r == self.spec_bit(1),
    {
        self.bits & (1u32 << 1u32) != 0
    }

    pub fn allow_non_alphanum(&self) -> (r: bool)
        ensures
            r == self.spec_bit(2),
    {
        self.bits & (1u32 << 2u32) != 0
    }

    pub fn shared_page_writing(&self) -> (r: bool)
        ensures
            r == self.spec_bit(3),
    {
        self.bits & (1u32 << 3u32) != 0
    }

    pub fn priviledge_priority(&self) -> (r: bool)
        ensures
            r == self.spec_bit(4),
    {
        self.bits & (1u32 << 4u32) != 0
    }

    pub fn allow_main_args(&self) -> (r: bool)
        ensures
            r == self.spec_bit(5),
    {
        self.bits & (1u32 << 5u32) != 0
    }

    pub fn shared_deice_memory(&self) -> (r: bool)
        ensures
            r == self.spec_bit(6),
    {
        self.bits & (1u32 << 6u32) != 0
    }

    pub fn runnable_on_sleep(&self) -> (r: bool)
        ensures
            r == self.spec_bit(7),
    {
        self.bits & (1u32 << 7u32) != 0
    }

    /// The kind of memory: bits 8 to 11, where they stand for a kind.
    pub fn memory_type(&self) -> (r: Arm11MemoryType)
        requires
            1 <= (self.bits >> 8) & 0xf <= 3,
        ensures
            r.spec_into_bits() == (self.bits >> 8) & 0xf,
    {
        Arm11MemoryType::from_bits((self.bits >> 8) & 0xf)
    }

    pub fn special_memory(&self) -> (r: bool)
        ensures
            r == self.spec_bit(12),
    {
        self.bits & (1u32 << 12u32) != 0
    }

    pub fn access_core2(&self) -> (r: bool)
        ensures
            r == self.spec_bit(13),
    {
        self.bits & (1u32 << 13u32) != 0
    }
}

/// A kernel capability, decoded.
#[derive(Debug, Clone, Copy, PartialEq, Eq, Structural)]
pub enum KernelCap {
    InterruptInfo,
    EnableSyscalls(SyscallMask),
    KernelReleaseVersion { major: u8, minor: u8 },
    HandleTableSize(u32),
    KernelFlags(Arm11Flags),
    MapMemoryRangeStart { read_only: bool, start: u32 },
    MapMemoryRangeEnd { cacheable: bool, end: u32 },
    MapIoMemoryPageStart,
    MapIoMemoryPageEnd,
}

/// The address that a memory range descriptor carries: its lowest twenty
/// bits, as the highest bits of a 32-bit address.
pub open spec fn spec_range_addr(val: u32) -> u32 {
    (val & 0x000f_ffff) << 16
}

/// The last address before `addr`, modulo 2^32.
pub open spec fn spec_addr_before(addr: u32) -> u32 {
    if addr == 0 {
        0xffff_ffffu32
    } else {
        (addr - 1) as u32
    }
}

/// What one descriptor says. The number of its leading one bits names its
/// kind: 3 interrupt info, 4 a system call mask, 6 the kernel release
/// version, 7 the size of the handle table, 8 the kernel flags, 9 one end
/// of a memory range; any other descriptor says nothing. Memory range
/// descriptors come in pairs: `in_range` tells whether the start of a range
/// has been read and its end is due.
pub open spec fn spec_decode_one(val: u32, in_range: bool) -> Option<KernelCap> {
    let ones = u32_leading_ones(val);
    if ones == 3 {
        Some(KernelCap::InterruptInfo)
    } else if ones == 4 {
        Some(KernelCap::EnableSyscalls(SyscallMask { bits: val & 0x0fff_ffff }))
    } else if ones == 6 {
        Some(
            KernelCap::KernelReleaseVersion {
                major: (((val & 0x03ff_ffff) / 0x100) % 0x100) as u8,
                minor: ((val & 0x03ff_ffff) % 0x100) as u8,
            },
        )
    } else if ones == 7 {
        Some(KernelCap::HandleTableSize(val & 0x01ff_ffff))
    } else if ones == 8 {
        Some(KernelCap::KernelFlags(Arm11Flags { bits: val & 0x00ff_ffff }))
    } else if ones == 9 {
        if !in_range {
            Some(
                KernelCap::MapMemoryRangeStart {
                    read_only: val & 0x10_0000 != 0,
                    start: spec_range_addr(val),
                },
            )
        } else {
            Some(
                KernelCap::MapMemoryRangeEnd {
                    cacheable: val & 0x10_0000 != 0,
                    end: spec_addr_before(spec_range_addr(val)),
                },
            )
        }
    } else {
        None
    }
}

/// Whether, after the first `n` descriptors, the start of a memory range
/// has been read and its end is due.
pub open spec fn spec_in_range(descs: Seq<KernelCapRaw>, n: int) -> bool
    decreases n,
{
    if n <= 0 {
        false
    } else if u32_leading_ones(descs[n - 1].0) == 9 {
        !spec_in_range(descs, n - 1)
    } else {
        spec_in_range(descs, n - 1)
    }
}

/// What the first `n` descriptors say, in their order.
pub open spec fn spec_decode(descs: Seq<KernelCapRaw>, n: int) -> Seq<KernelCap>
    decreases n,
{
    if n <= 0 {
        Seq::empty()
    } else {
        let before = spec_decode(descs, n - 1);
        match spec_decode_one(descs[n - 1].0, spec_in_range(descs, n - 1)) {
            Some(cap) => before.push(cap),
            None => before,
        }
    }
}

/// Whether one of the first `n` descriptors maps an I/O memory page: it
/// has eleven leading one bits.
pub open spec fn spec_has_io_page(descs: Seq<KernelCapRaw>, n: int) -> bool {
    exists|i: int| 0 <= i < n && u32_leading_ones(#[trigger] descs[i].0) == 11
}

/// The kernel capabilities of the ARM11 core: 28 descriptors.
#[derive(Debug, Clone, Copy)]
pub struct Arm11KernelCaps {
    pub descriptors: [KernelCapRaw; 0x1c],
}

impl Arm11KernelCaps {
    /// Whether the capabilities are what the 0x80 bytes at `at` say: 28
    /// numbers, little-endian.
    pub open spec fn is_record(&self, bytes: Seq<u8>, at: int) -> bool {
        forall|i: int|
            0 <= i < 0x1c ==> (#[trigger] self.descriptors@[i]).0 == u32_le_at(bytes, at + 4 * i)
    }

    fn read(bytes: &[u8], at: usize) -> (r: Arm11KernelCaps)
        requires
            at + 0x80 <= bytes.len(),
        ensures
            r.is_record(bytes@, at as int),
    {
        let mut descriptors = [KernelCapRaw(0);0x1c];
        let mut i: usize = 0;
        while i < 0x1c
            invariant
                i <= 0x1c,
                at + 0x80 <= bytes.len(),
                forall|k: int|
                    0 <= k < i ==> (#[trigger] descriptors@[k]).0 == u32_le_at(bytes@, at + 4 * k),
            decreases 0x1c - i,
        {
            descriptors[i] = KernelCapRaw(read_u32_le(bytes, at + 4 * i));
            i = i + 1;
        }
        Arm11KernelCaps { descriptors }
    }

    /// What one descriptor says.
    fn decode_one(val: u32, in_range: bool) -> (r: Option<KernelCap>)
        ensures
            r == spec_decode_one(val, in_range),
    {
        let ones = val.leading_ones();
        if ones == 3 {
            Some(KernelCap::InterruptInfo)
        } else if ones == 4 {
            Some(KernelCap::EnableSyscalls(SyscallMask::from_bits(val & 0x0fff_ffff)))
        } else if ones == 6 {
            let v = val & 0x03ff_ffff;
            Some(
                KernelCap::KernelReleaseVersion {
                    major: ((v / 0x100) % 0x100) as u8,
                    minor: (v % 0x100) as u8,
                },
            )
        } else if ones == 7 {
            Some(KernelCap::HandleTableSize(val & 0x01ff_ffff))
        } else if ones == 8 {
            Some(KernelCap::KernelFlags(Arm11Flags::from_bits(val & 0x00ff_ffff)))
        } else if ones == 9 {
            let bit20 = val & 0x10_0000 != 0;
            let addr = (val & 0x000f_ffff) << 16;
            if !in_range {
                Some(KernelCap::MapMemoryRangeStart { read_only: bit20, start: addr })
            } else {
                let end = if addr == 0 {
                    0xffff_ffffu32
                } else {
                    addr - 1
                };
                Some(KernelCap::MapMemoryRangeEnd { cacheable: bit20, end })
            }
        } else {
            None
        }
    }

    /// The capabilities that the descriptors stand for, in their order.
    /// A descriptor that maps an I/O memory page cannot be decoded.
    #[must_use]
    pub fn decode_descriptors(&self) -> (r: CytrynaResult<Vec<KernelCap>>)
        ensures
            match r {
                Ok(caps) => !spec_has_io_page(self.descriptors@, 0x1c) && caps@ == spec_decode(
                    self.descriptors@,
                    0x1c,
                ),
                Err(e) => spec_has_io_page(self.descriptors@, 0x1c) && e
                    == CytrynaError::NotImplemented("MapIoMemoryPage"),
            },
    {
        let mut ret: Vec<KernelCap> = Vec::new();
        let mut in_range = false;
        let mut i: usize = 0;
        while i < 0x1c
            invariant
                i <= 0x1c,
                self.descriptors@.len() == 0x1c,
                !spec_has_io_page(self.descriptors@, i as int),
                in_range == spec_in_range(self.descriptors@, i as int),
                ret@ == spec_decode(self.descriptors@, i as int),
            decreases 0x1c - i,
        {
            let val = self.descriptors[i].0;
            let ones = val.leading_ones();
            if ones == 11 {
                assert(u32_leading_ones(self.descriptors@[i as int].0) == 11);
                return Err(CytrynaError::NotImplemented("MapIoMemoryPage"));
            }
            match Self::decode_one(val, in_range) {
                Some(cap) => {
                    ret.push(cap);
                },
                None => {},
            }
            if ones == 9 {
                in_range = !in_range;
            }
            i = i + 1;
            assert(!spec_has_io_page(self.descriptors@, i as int)) by {
                if spec_has_io_page(self.descriptors@, i as int) {
                    let j = choose|j: int|
                        0 <= j < i && u32_leading_ones(#[trigger] self.descriptors@[j].0) == 11;
                    if j < i - 1 {
                        assert(spec_has_io_page(self.descriptors@, i - 1));
                    }
                }
            }
        }
        Ok(ret)
    }
}

/// What the ARM9 core may do: sixteen flag bits.
#[derive(Debug, Clone, Copy, PartialEq, Eq, Structural)]
pub struct Arm9Descriptors {
    pub bits: u16,
}

impl Arm9Descriptors {
    pub const MOUNT_NAND: u16 = 0x1;

    pub const MOUNT_NANRO_WRITE: u16 = 0x2;

    pub const MOUNT_TWLN: u16 = 0x4;

    pub const MOUNT_WNAND: u16 = 0x8;

    pub const MOUNT_CARD_SPI: u16 = 0x10;

    pub const USE_SDIF3: u16 = 0x20;

    pub const CREATE_SEED: u16 = 0x40;

    pub const USE_CARD_SPI: u16 = 0x80;

    pub const SD_APPLICATION: u16 = 0x100;

    pub const MOUNT_SDMC_WRITE: u16 = 0x200;

    /// Whether every bit of `flags` is set.
    pub open spec fn spec_contains(self, flags: u16) -> bool {
        self.bits & flags == flags
    }

    /// The flag bits.
    pub fn bits(&self) -> (r: u16)
        ensures
            r == self.bits,
    {
        self.bits
    }

    /// Whether every bit of `flags` is set.
    pub fn contains(&self, flags: u16) -> (r: bool)
        ensures
            r == self.spec_contains(flags),
    {
        self.bits & flags == flags
    }
}

/// The access control of the ARM9 core: 0x10 bytes.
#[derive(Debug, Clone, Copy, PartialEq, Eq, Structural)]
pub struct Arm9AccessControl {
    pub descriptors: Arm9Descriptors,
    pub version: u8,
}

impl Arm9AccessControl {
    /// Whether the access control is what the 0x10 bytes at `at` say.
    pub open spec fn is_record(&self, bytes: Seq<u8>, at: int) -> bool {
        &&& self.descriptors.bits == u16_le_at(bytes, at)
        &&& self.version == bytes[at + 0xf]
    }

    fn read(bytes: &[u8], at: usize) -> (r: Arm9AccessControl)
        requires
            at + 0x10 <= bytes.len(),
        ensures
            r.is_record(bytes@, at as int),
    {
        Arm9AccessControl {
            descriptors: Arm9Descriptors { bits: read_u16_le(bytes, at) },
            version: bytes[at + 0xf],
        }
    }
}

/// The access control info: 0x200 bytes.
#[derive(Debug, Clone, Copy)]
pub struct AccessControlInfo {
    pub arm11_syscaps: Arm11LocalSystemCaps,
    pub arm11_kerncaps: Arm11KernelCaps,
    pub arm9: Arm9AccessControl,
}

impl AccessControlInfo {
    /// Whether the info is what the 0x200 bytes at `at` say.
    pub open spec fn is_record(&self, bytes: Seq<u8>, at: int) -> bool {
        &&& self.arm11_syscaps.is_record(bytes, at)
        &&& self.arm11_kerncaps.is_record(bytes, at + 0x170)
        &&& self.arm9.is_record(bytes, at + 0x1f0)
    }

    fn read(bytes: &[u8], at: usize) -> (r: CytrynaResult<AccessControlInfo>)
        requires
            at + 0x200 <= bytes.len(),
        ensures
            match r {
                Ok(info) => Arm11LocalSystemCaps::spec_ok(bytes@, at as int) is Ok
                    && info.is_record(bytes@, at as int),
                Err(e) => Arm11LocalSystemCaps::spec_ok(bytes@, at as int) == Err::<
                    (),
                    CytrynaError,
                >(e),
            },
    {
        let arm11_syscaps = match Arm11LocalSystemCaps::read(bytes, at) {
            Ok(caps) => caps,
            Err(e) => {
                return Err(e);
            },
        };
        Ok(
            AccessControlInfo {
                arm11_syscaps,
                arm11_kerncaps: Arm11KernelCaps::read(bytes, at + 0x170),
                arm9: Arm9AccessControl::read(bytes, at + 0x1f0),
            },
        )
    }
}

/// The extended header.
#[derive(Debug, Clone, Copy)]
pub struct Exheader {
    pub sci: SystemControlInfo,
    pub aci: AccessControlInfo,
    pub access_desc_sig: [u8; 0x100],
    pub ncch_hdr_pubkey: [u8; 0x100],
    pub aci_second: AccessControlInfo,
}

/// Whether `bytes` can be read as an extended header, and if not, why:
/// they must have its exact length, and in both access control infos the
/// system mode and the resource limit category must exist.
pub open spec fn spec_exheader_ok(bytes: Seq<u8>) -> CytrynaResult<()> {
    if bytes.len() != EXHEADER_LEN {
        Err(CytrynaError::InvalidLength { what: "exheader", actual: bytes.len() as usize, expected: 0x800 })
    } else {
        match Arm11LocalSystemCaps::spec_ok(bytes, 0x200) {
            Err(e) => Err(e),
            Ok(_) => Arm11LocalSystemCaps::spec_ok(bytes, 0x600),
        }
    }
}

impl Exheader {
    /// Whether the header is what the 0x800 bytes `bytes` say.
    pub open spec fn is_exheader_of(&self, bytes: Seq<u8>) -> bool {
        &&& self.sci.is_record(bytes, 0)
        &&& self.aci.is_record(bytes, 0x200)
        &&& self.access_desc_sig@ == bytes.subrange(0x400, 0x500)
        &&& self.ncch_hdr_pubkey@ == bytes.subrange(0x500, 0x600)
        &&& self.aci_second.is_record(bytes, 0x600)
    }

    /// Reads `bytes`, the plaintext of an extended header, as one.
    pub fn from_bytes(bytes: &[u8]) -> (r: CytrynaResult<Exheader>)
        ensures
            match r {
                Ok(header) => spec_exheader_ok(bytes@) is Ok && header.is_exheader_of(bytes@),
                Err(e) => spec_exheader_ok(bytes@) == Err::<(), CytrynaError>(e),
            },
    {
        if bytes.len() != EXHEADER_LEN {
            return Err(
                CytrynaError::InvalidLength {
                    what: "exheader",
                    actual: bytes.len(),
                    expected: 0x800,
                },
            );
        }
        let aci = match AccessControlInfo::read(bytes, 0x200) {
            Ok(info) => info,
            Err(e) => {
                return Err(e);
            },
        };
        let aci_second = match AccessControlInfo::read(bytes, 0x600) {
            Ok(info) => info,
            Err(e) => {
                return Err(e);
            },
        };
        Ok(
            Exheader {
                sci: SystemControlInfo::read(bytes, 0),
                aci,
                access_desc_sig: read_array::<0x100>(bytes, 0x400),
                ncch_hdr_pubkey: read_array::<0x100>(bytes, 0x500),
                aci_second,
            },
        )
    }
}

} // verus!
