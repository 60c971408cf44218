//! Title identifiers: a 64-bit number made of a platform, a category and a
//! unique id.

use vstd::prelude::*;
use crate::bytes::{u64_be_bytes, write_u64_be};
use crate::error::{CytrynaError, CytrynaResult};

verus! {

/// The platform a title is made for: the highest sixteen bits of its id.
#[derive(Debug, Clone, Copy, PartialEq, Eq, Structural)]
pub enum Platform {
    Wii,
    Dsi,
    Ctr,
    Wiiu,
}

impl Platform {
    /// The number that stands for the platform.
    pub open spec fn spec_code(self) -> u16 {
        match self {
            Platform::Wii => 1,
            Platform::Dsi => 3,
            Platform::Ctr => 4,
            Platform::Wiiu => 5,
        }
    }

    /// The platform that a number stands for, if it stands for one.
    pub open spec fn spec_from_code(code: u16) -> Option<Platform> {
        if code == 1 {
            Some(Platform::Wii)
        } else if code == 3 {
            Some(Platform::Dsi)
        } else if code == 4 {
            Some(Platform::Ctr)
        } else if code == 5 {
            Some(Platform::Wiiu)
        } else {
            None
        }
    }

    /// The number that stands for the platform.
    pub fn code(self) -> (r: u16)
        ensures
            r == self.spec_code(),
    {
        match self {
            Platform::Wii => 1,
            Platform::Dsi => 3,
            Platform::Ctr => 4,
            Platform::Wiiu => 5,
        }
    }

    /// The platform that a number stands for, if it stands for one.
    pub fn from_code(code: u16) -> (r: Option<Platform>)
        ensures
            r == Self::spec_from_code(code),
    {
        if code == 1 {
            Some(Platform::Wii)
        } else if code == 3 {
            Some(Platform::Dsi)
        } else if code == 4 {
            Some(Platform::Ctr)
        } else if code == 5 {
            Some(Platform::Wiiu)
        } else {
            None
        }
    }
}

/// The category of a title: sixteen flag bits, every one of them allowed.
#[derive(Debug, Clone, Copy, PartialEq, Eq, Structural)]
pub struct Category {
    bits: u16,
}

impl Category {
    pub const NORMAL: u16 = 0x0;

    pub const DLP_CHILD: u16 = 0x1;

    pub const DEMO: u16 = 0x2;

    pub const CONTENTS: u16 = 0x3;

    pub const ADDON_CONTENTS: u16 = 0x4;

    pub const PATCH: u16 = 0x6;

    pub const CANNOT_EXECUTION: u16 = 0x8;

    pub const SYSTEM: u16 = 0x10;

    pub const REQUIRE_BATCH_UPDATE: u16 = 0x20;

    pub const NOT_REQUIRE_USER_APPROVAL: u16 = 0x40;

    pub const NOT_REQUIRE_RIGHT_FOR_MOUNT: u16 = 0x80;

    pub const CAN_SKIP_CONVERT_JUMP_ID: u16 = 0x100;

    pub const TWL: u16 = 0x8000;

    pub const SYSTEM_APPLICATION: u16 = 0x10;

    pub const SYSTEM_CONTENT: u16 = 0x1b;

    pub const SHARED_CONTENT: u16 = 0x9b;

    pub const AUTO_UPDATE_CONTENT: u16 = 0xdb;

    pub const APPLET: u16 = 0x30;

    pub const BASE: u16 = 0x130;

    pub const FIRMWARE: u16 = 0x138;

    /// The flag bits.
    pub closed spec fn spec_bits(self) -> u16 {
        self.bits
    }

    /// The category with exactly these flag bits.
    pub fn from_bits_retain(bits: u16) -> (r: Category)
        ensures
            r.spec_bits() == bits,
    {
        Category { bits }
    }

    /// The flag bits.
    pub fn bits(&self) -> (r: u16)
        ensures
            r == self.spec_bits(),
    {
        self.bits
    }

    /// Whether every bit of `flags` is set.
    pub fn contains(&self, flags: u16) -> (r: bool)
        ensures
            r == (self.spec_bits() & flags == flags),
    {
        self.bits & flags == flags
    }
}

/// A title identifier.
#[derive(Debug, Copy, Clone, PartialEq, Eq, Structural)]
pub struct TitleId {
    id: u32,
    category: Category,
    plat: Platform,
}

/// The number whose lowest 32 bits are `id`, whose next 16 bits are
/// `category` and whose highest 16 bits are `plat`.
pub open spec fn spec_title_number(id: u32, category: u16, plat: u16) -> u64 {
    (id as int + category as int * 0x1_0000_0000 + plat as int * 0x1_0000_0000_0000) as u64
}

impl TitleId {
    pub closed spec fn spec_id(self) -> u32 {
        self.id
    }

    pub closed spec fn spec_category(self) -> Category {
        self.category
    }

    pub closed spec fn spec_plat(self) -> Platform {
        self.plat
    }

    /// The identifier as one number.
    pub open spec fn spec_to_u64(self) -> u64 {
        spec_title_number(
            self.spec_id(),
            self.spec_category().spec_bits(),
            self.spec_plat().spec_code(),
        )
    }

    /// Whether the identifier is the number zero. No identifier is: zero
    /// stands for no platform.
    pub fn is_null(&self) -> (r: bool)
        ensures
            r == (self.spec_to_u64() == 0),
            !r,
    {
        self.to_u64() == 0
    }

    /// The identifier as one number.
    pub fn to_u64(self) -> (r: u64)
        ensures
            r == self.spec_to_u64(),
    {
        (self.id as u64) + (self.category.bits as u64) * 0x1_0000_0000 + (self.plat.code() as u64)
            * 0x1_0000_0000_0000
    }

    /// The identifier that the number `what` is, where its highest sixteen
    /// bits stand for a platform.
    pub fn from_u64(what: u64) -> (r: CytrynaResult<TitleId>)
        ensures
            match r {
                Ok(t) => t.spec_to_u64() == what && Platform::spec_from_code(
                    (what / 0x1_0000_0000_0000) as u16,
                ) == Some(t.spec_plat()),
                Err(e) => Platform::spec_from_code((what / 0x1_0000_0000_0000) as u16) is None
                    && e == CytrynaError::EnumValueOutOfRange("smdh::Platform"),
            },
    {
        let plat_code = (what / 0x1_0000_0000_0000) as u16;
        let plat = match Platform::from_code(plat_code) {
            Some(p) => p,
            None => {
                return Err(CytrynaError::EnumValueOutOfRange("smdh::Platform"));
            },
        };
        let category = Category::from_bits_retain((what / 0x1_0000_0000 % 0x1_0000) as u16);
        let id = (what % 0x1_0000_0000) as u32;
        Ok(TitleId { id, category, plat })
    }

    /// The unique id: the lowest 32 bits.
    pub fn id(&self) -> (r: u32)
        ensures
            r == self.spec_id(),
    {
        self.id
    }

    /// The category: bits 32 to 47.
    pub fn category(&self) -> (r: Category)
        ensures
            r == self.spec_category(),
    {
        self.category
    }

    /// The platform: the highest 16 bits.
    pub fn plat(&self) -> (r: Platform)
        ensures
            r == self.spec_plat(),
    {
        self.plat
    }
}

/// A number that may be a title identifier, as structures store it
/// little-endian.
#[derive(Debug, Copy, Clone, PartialEq, Eq, Structural)]
pub struct MaybeTitleId {
    pub raw: u64,
}

impl MaybeTitleId {
    /// The title identifier, if the number is one.
    pub fn to_titleid(self) -> (r: CytrynaResult<TitleId>)
        ensures
            match r {
                Ok(t) => t.spec_to_u64() == self.raw,
                Err(e) => Platform::spec_from_code((self.raw / 0x1_0000_0000_0000) as u16) is None
                    && e == CytrynaError::EnumValueOutOfRange("smdh::Platform"),
            },
            r is Ok <==> Platform::spec_from_code((self.raw / 0x1_0000_0000_0000) as u16) is Some,
    {
        TitleId::from_u64(self.raw)
    }
}

/// A number that may be a title identifier, as structures store it
/// big-endian.
#[derive(Debug, Copy, Clone, PartialEq, Eq, Structural)]
pub struct MaybeTitleIdBe {
    pub raw: u64,
}

impl MaybeTitleIdBe {
    /// The title identifier, if the number is one.
    pub fn to_titleid(self) -> (r: CytrynaResult<TitleId>)
        ensures
            match r {
                Ok(t) => t.spec_to_u64() == self.raw,
                Err(e) => Platform::spec_from_code((self.raw / 0x1_0000_0000_0000) as u16) is None
                    && e == CytrynaError::EnumValueOutOfRange("smdh::Platform"),
            },
            r is Ok <==> Platform::spec_from_code((self.raw / 0x1_0000_0000_0000) as u16) is Some,
    {
        TitleId::from_u64(self.raw)
    }

    /// The same number for a little-endian field.
    pub fn to_le(self) -> (r: MaybeTitleId)
        ensures
            r.raw == self.raw,
    {
        MaybeTitleId { raw: self.raw }
    }

    /// The eight bytes of the field: the number, big-endian.
    pub fn to_bytes(self) -> (r: [u8; 8])
        ensures
            r@ == u64_be_bytes(self.raw),
    {
        write_u64_be(self.raw)
    }
}

} // verus!
