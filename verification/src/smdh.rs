//! The icon and title data of an application: titles in sixteen
//! languages, age ratings, flags, and two icons of 24 and 48 pixels a side
//! whose pixels are stored tile by tile.

use vstd::prelude::*;
use crate::bytes::{
    lemma_u16s_le_len, push_bytes, push_u16_le, push_u16s_le, push_u32_le, push_zeros,
    read_u16_array, read_u16_le, read_u32_le, read_u64_le, u16_le_at, u16s_le_bytes, u32_le_at,
    u32_le_bytes, u64_le_at, zeros,
};
use crate::error::{CytrynaError, CytrynaResult};
use crate::string::{utf16_lossy, utf16_encoded, zero_padded, SizedCStringError, SizedCStringUtf16};
use crate::{FromBytes, VecOrSlice};

verus! {

/// The length of the data.
pub const SMDH_SIZE: usize = 0x36c0;

/// Where the icons start in the data.
pub const SMDH_ICONS_AT: usize = 0x2040;

/// The number of pixels of the small icon.
pub const SMALL_ICON_PIXELS: usize = 0x240;

/// The number of pixels of the big icon.
pub const BIG_ICON_PIXELS: usize = 0x900;

/// Why icon and title data cannot be built.
#[derive(Debug)]
pub enum SmdhError {
    /// The short description is missing.
    MissingShortDesc,
    /// The long description is missing.
    MissingLongDesc,
    /// The publisher is missing.
    MissingPublisher,
    /// The icon is missing.
    MissingIcon,
    /// A text is too long for its field.
    StringErr(SizedCStringError),
    /// The image has another number of pixels than the icon.
    InvalidImageSize { got: u32, expected: u32 },
    /// The image is not a square.
    OnlySquaresAllowed,
}

/// What the builder of icon and title data returns.
pub type SmdhResult<T> = Result<T, SmdhError>;

/// The age rating of one region: eight flag bits.
#[derive(Debug, Clone, Copy, PartialEq, Eq, Structural)]
pub struct AgeRating {
    pub bits: u8,
}

impl AgeRating {
    pub const ENABLED: u8 = 0x80;

    pub const PENDING: u8 = 0x40;

    pub const NO_AGE_RESTRICTION: u8 = 0x20;

    /// Whether every bit of `flags` is set.
    pub open spec fn spec_contains(self, flags: u8) -> bool {
        self.bits & flags == flags
    }

    /// The flag bits.
    pub fn bits(&self) -> (r: u8)
        ensures
            r == self.bits,
    {
        self.bits
    }

    /// Whether every bit of `flags` is set.
    pub fn contains(&self, flags: u8) -> (r: bool)
        ensures
            r == self.spec_contains(flags),
    {
        self.bits & flags == flags
    }
}

/// The regions that an application is locked to: 32 flag bits.
#[derive(Debug, Clone, Copy, PartialEq, Eq, Structural)]
pub struct RegionLockout {
    pub bits: u32,
}

impl RegionLockout {
    pub const JAPAN: u32 = 0x1;

    pub const NORTH_AMERICA: u32 = 0x2;

    pub const EUROPE: u32 = 0x4;

    pub const AUSTRALIA: u32 = 0x8;

    pub const CHINA: u32 = 0x10;

    pub const KOREA: u32 = 0x20;

    pub const TAIWAN: u32 = 0x40;

    pub const REGION_FREE: u32 = 0x7fff_ffff;

    /// Whether every bit of `flags` is set.
    pub open spec fn spec_contains(self, flags: u32) -> bool {
        self.bits & flags == flags
    }

    /// The flag bits.
    pub fn bits(&self) -> (r: u32)
        ensures
            r == self.bits,
    {
        self.bits
    }

    /// Whether every bit of `flags` is set.
    pub fn contains(&self, flags: u32) -> (r: bool)
        ensures
            r == self.spec_contains(flags),
    {
        self.bits & flags == flags
    }
}

/// The flags of an application: 32 flag bits.
#[derive(Debug, Clone, Copy, PartialEq, Eq, Structural)]
pub struct SmdhFlags {
    pub bits: u32,
}

impl SmdhFlags {
    pub const VISIBLE_IN_HOMEMENU: u32 = 0x1;

    pub const AUTOBOOT_GAMECART: u32 = 0x2;

    pub const ALLOW_3D: u32 = 0x4;

    pub const REQUIRE_CTR_EULA: u32 = 0x8;

    pub const AUTOSAVE_ON_EXIT: u32 = 0x10;

    pub const EXTBANNER_USED: u32 = 0x20;

    pub const REGION_RATING_REQUIRED: u32 = 0x40;

    pub const USES_SAVE_DATA: u32 = 0x80;

    pub const RECORD_USAGE: u32 = 0x100;

    pub const DISABLE_SD_SAVE_BACKUP: u32 = 0x400;

    pub const NEW3DS_EXCLUSIVE: u32 = 0x1000;

    /// Whether every bit of `flags` is set.
    pub open spec fn spec_contains(self, flags: u32) -> bool {
        self.bits & flags == flags
    }

    /// The flag bits.
    pub fn bits(&self) -> (r: u32)
        ensures
            r == self.bits,
    {
        self.bits
    }

    /// Whether every bit of `flags` is set.
    pub fn contains(&self, flags: u32) -> (r: bool)
        ensures
            r == self.spec_contains(flags),
    {
        self.bits & flags == flags
    }
}

/// The regions that have an age rating, by the place of the rating in the
/// data.
#[derive(Debug, Clone, Copy, PartialEq, Eq, Structural)]
pub enum AgeRatingRegion {
    Cero,
    Esrb,
    Usk,
    PegiGen,
    PegiPrt,
    PegiBbfc,
    Cob,
    Grb,
    Cgsrr,
}

impl AgeRatingRegion {
    /// The place of the region's rating among the sixteen ratings.
    pub open spec fn spec_index(self) -> int {
        match self {
            AgeRatingRegion::Cero => 0,
            AgeRatingRegion::Esrb => 1,
            AgeRatingRegion::Usk => 3,
            AgeRatingRegion::PegiGen => 4,
            AgeRatingRegion::PegiPrt => 5,
            AgeRatingRegion::PegiBbfc => 6,
            AgeRatingRegion::Cob => 7,
            AgeRatingRegion::Grb => 8,
            AgeRatingRegion::Cgsrr => 9,
        }
    }

    /// The place of the region's rating among the sixteen ratings.
    pub fn index(self) -> (r: usize)
        ensures
            r == self.spec_index(),
    {
        match self {
            AgeRatingRegion::Cero => 0,
            AgeRatingRegion::Esrb => 1,
            AgeRatingRegion::Usk => 3,
            AgeRatingRegion::PegiGen => 4,
            AgeRatingRegion::PegiPrt => 5,
            AgeRatingRegion::PegiBbfc => 6,
            AgeRatingRegion::Cob => 7,
            AgeRatingRegion::Grb => 8,
            AgeRatingRegion::Cgsrr => 9,
        }
    }
}

/// The languages that have a title, by the place of the title in the data.
#[derive(Debug, Clone, Copy, PartialEq, Eq, Structural)]
pub enum Language {
    Japanese,
    English,
    French,
    German,
    Italian,
    Spanish,
    SimplifiedChinese,
    Korean,
    Dutch,
    Portugese,
    Russian,
    TraditionalChinese,
}

impl Language {
    /// The place of the language's title among the sixteen titles.
    pub open spec fn spec_index(self) -> int {
        match self {
            Language::Japanese => 0,
            Language::English => 1,
            Language::French => 2,
            Language::German => 3,
            Language::Italian => 4,
            Language::Spanish => 5,
            Language::SimplifiedChinese => 6,
            Language::Korean => 7,
            Language::Dutch => 8,
            Language::Portugese => 9,
            Language::Russian => 10,
            Language::TraditionalChinese => 11,
        }
    }

    /// The place of the language's title among the sixteen titles.
    pub fn index(self) -> (r: usize)
        ensures
            r == self.spec_index(),
    {
        match self {
            Language::Japanese => 0,
            Language::English => 1,
            Language::French => 2,
            Language::German => 3,
            Language::Italian => 4,
            Language::Spanish => 5,
            Language::SimplifiedChinese => 6,
            Language::Korean => 7,
            Language::Dutch => 8,
            Language::Portugese => 9,
            Language::Russian => 10,
            Language::TraditionalChinese => 11,
        }
    }
}

/// The ids under which an application finds partners for online play.
#[derive(Debug, Clone, Copy, PartialEq, Eq, Structural)]
pub struct MatchmakerId {
    id: u32,
    bit_id: u64,
}

impl MatchmakerId {
    /// The id.
    pub closed spec fn spec_id(&self) -> u32 {
        self.id
    }

    /// The bit id.
    pub closed spec fn spec_bit_id(&self) -> u64 {
        self.bit_id
    }

    /// The id.
    #[must_use]
    pub fn id(&self) -> (r: u32)
        ensures
            r == self.spec_id(),
    {
        self.id
    }

    /// The bit id.
    #[must_use]
    pub fn bit_id(&self) -> (r: u64)
        ensures
            r == self.spec_bit_id(),
    {
        self.bit_id
    }
}

/// The version of the license agreement that an application asks for.
#[derive(Debug, Clone, Copy, PartialEq, Eq, Structural)]
pub struct EulaVersion {
    pub major: u8,
    pub minor: u8,
}

/// The title of an application in one language.
#[derive(Debug, Clone, Copy)]
pub struct SmdhTitle {
    short_desc: SizedCStringUtf16<0x40>,
    long_desc: SizedCStringUtf16<0x80>,
    publisher: SizedCStringUtf16<0x40>,
}

impl SmdhTitle {
    /// The short description.
    pub closed spec fn spec_short_desc(&self) -> Seq<u16> {
        self.short_desc@
    }

    /// The long description.
    pub closed spec fn spec_long_desc(&self) -> Seq<u16> {
        self.long_desc@
    }

    /// The publisher.
    pub closed spec fn spec_publisher(&self) -> Seq<u16> {
        self.publisher@
    }

    /// Whether the title is what the 0x200 bytes at `at` say: the short
    /// description of 0x40 units, the long description of 0x80, and the
    /// publisher of 0x40, each unit little-endian.
    pub open spec fn is_record(&self, bytes: Seq<u8>, at: int) -> bool {
        &&& self.spec_short_desc().len() == 0x40
        &&& self.spec_long_desc().len() == 0x80
        &&& self.spec_publisher().len() == 0x40
        &&& forall|i: int| 0 <= i < 0x40 ==> self.spec_short_desc()[i] == u16_le_at(bytes, at + 2 * i)
        &&& forall|i: int|
            0 <= i < 0x80 ==> self.spec_long_desc()[i] == u16_le_at(bytes, at + 0x80 + 2 * i)
        &&& forall|i: int|
            0 <= i < 0x40 ==> self.spec_publisher()[i] == u16_le_at(bytes, at + 0x180 + 2 * i)
    }

    /// The short description as text, with replacement characters for
    /// unpaired surrogates.
    pub fn short_desc_string(&self) -> (r: String)
        ensures
            r@ == utf16_lossy(self.spec_short_desc()),
    {
        self.short_desc.to_string_lossy()
    }

    /// The long description as text, with replacement characters for
    /// unpaired surrogates.
    pub fn long_desc_string(&self) -> (r: String)
        ensures
            r@ == utf16_lossy(self.spec_long_desc()),
    {
        self.long_desc.to_string_lossy()
    }

    /// The publisher as text, with replacement characters for unpaired
    /// surrogates.
    pub fn publisher_string(&self) -> (r: String)
        ensures
            r@ == utf16_lossy(self.spec_publisher()),
    {
        self.publisher.to_string_lossy()
    }

    /// The short description.
    #[must_use]
    pub fn short_desc(&self) -> (r: &SizedCStringUtf16<0x40>)
        ensures
            r@ == self.spec_short_desc(),
    {
        &self.short_desc
    }

    /// The long description.
    #[must_use]
    pub fn long_desc(&self) -> (r: &SizedCStringUtf16<0x80>)
        ensures
            r@ == self.spec_long_desc(),
    {
        &self.long_desc
    }

    /// The publisher.
    #[must_use]
    pub fn publisher(&self) -> (r: &SizedCStringUtf16<0x40>)
        ensures
            r@ == self.spec_publisher(),
    {
        &self.publisher
    }
}

/// A pixel of an icon: five bits of blue in bits 0 to 4, six of green in
/// bits 5 to 10, five of red in bits 11 to 15.
#[derive(Debug, Clone, Copy, PartialEq, Eq, Structural)]
pub struct Rgb565Pixel {
    pub bits: u16,
}

/// A pixel of an ordinary image: eight bits each of red, green and blue.
#[derive(Debug, Clone, Copy, PartialEq, Eq, Structural)]
pub struct Rgb888 {
    pub r: u8,
    pub g: u8,
    pub b: u8,
}

impl Rgb565Pixel {
    /// The pixel of this red, green and blue.
    pub open spec fn spec_new(r: u8, g: u8, b: u8) -> Rgb565Pixel {
        Rgb565Pixel { bits: (b as u16) | ((g as u16) << 5) | ((r as u16) << 11) }
    }

    pub open spec fn spec_r(self) -> u8 {
        ((self.bits >> 11) & 0x1f) as u8
    }

    pub open spec fn spec_g(self) -> u8 {
        ((self.bits >> 5) & 0x3f) as u8
    }

    pub open spec fn spec_b(self) -> u8 {
        (self.bits & 0x1f) as u8
    }

    /// The pixel of an ordinary image that shows the same colour: the red
    /// and the blue eight times, the green four times as large.
    pub open spec fn spec_widen(self) -> Rgb888 {
        Rgb888 { r: (self.spec_r() << 3) as u8, g: (self.spec_g() << 2) as u8, b: (self.spec_b() << 3) as u8 }
    }

    /// The pixel of an icon that comes closest to `p`: the low three bits
    /// of red and blue and the low two bits of green are dropped.
    pub open spec fn spec_narrow(p: Rgb888) -> Rgb565Pixel {
        Self::spec_new(p.r >> 3, p.g >> 2, p.b >> 3)
    }

    /// The pixel of this red, green and blue.
    pub fn new(r: u8, g: u8, b: u8) -> (p: Rgb565Pixel)
        requires
            r < 32,
            g < 64,
            b < 32,
        ensures
            p == Self::spec_new(r, g, b),
            p.spec_r() == r,
            p.spec_g() == g,
            p.spec_b() == b,
    {
        let bits = (b as u16) | ((g as u16) << 5) | ((r as u16) << 11);
        assert(((bits >> 11) & 0x1f) as u8 == r && ((bits >> 5) & 0x3f) as u8 == g && (bits & 0x1f) as u8
            == b) by (bit_vector)
            requires
                bits == (b as u16) | ((g as u16) << 5) | ((r as u16) << 11),
                r < 32,
                g < 64,
                b < 32,
        ;
        Rgb565Pixel { bits }
    }

    /// The red: five bits.
    pub fn r(&self) -> (v: u8)
        ensures
            v == self.spec_r(),
            v < 32,
    {
        let bits = self.bits;
        let v = (bits >> 11) & 0x1f;
        assert(v < 32) by (bit_vector)
            requires
                v == (bits >> 11) & 0x1f,
        ;
        v as u8
    }

    /// The green: six bits.
    pub fn g(&self) -> (v: u8)
        ensures
            v == self.spec_g(),
            v < 64,
    {
        let bits = self.bits;
        let v = (bits >> 5) & 0x3f;
        assert(v < 64) by (bit_vector)
            requires
                v == (bits >> 5) & 0x3f,
        ;
        v as u8
    }

    /// The blue: five bits.
    pub fn b(&self) -> (v: u8)
        ensures
            v == self.spec_b(),
            v < 32,
    {
        let bits = self.bits;
        let v = bits & 0x1f;
        assert(v < 32) by (bit_vector)
            requires
                v == bits & 0x1f,
        ;
        v as u8
    }

    /// The pixel of an ordinary image that shows the same colour.
    pub fn widen(&self) -> (p: Rgb888)
        ensures
            p == self.spec_widen(),
    {
        Rgb888 { r: self.r() << 3, g: self.g() << 2, b: self.b() << 3 }
    }

    /// The pixel of an icon that comes closest to `p`.
    pub fn narrow(p: Rgb888) -> (q: Rgb565Pixel)
        ensures
            q == Self::spec_narrow(p),
    {
        let (pr, pg, pb) = (p.r, p.g, p.b);
        let r = pr >> 3;
        let g = pg >> 2;
        let b = pb >> 3;
        assert(r < 32 && g < 64 && b < 32) by (bit_vector)
            requires
                r == pr >> 3,
                g == pg >> 2,
                b == pb >> 3,
        ;
        Self::new(r, g, b)
    }
}

/// The order of the pixels inside a tile of eight by eight: entry `k` is
/// eight times the row plus the column of the `k`-th stored pixel.
pub const TILE_ORDER: [u8; 64] = [
    0, 1, 8, 9, 2, 3, 10, 11, 16, 17, 24, 25, 18, 19, 26, 27, 4, 5, 12, 13, 6, 7, 14, 15, 20, 21,
    28, 29, 22, 23, 30, 31, 32, 33, 40, 41, 34, 35, 42, 43, 48, 49, 56, 57, 50, 51, 58, 59, 36, 37,
    44, 45, 38, 39, 46, 47, 52, 53, 60, 61, 54, 55, 62, 63,
];

/// The column of the `n`-th stored pixel of an icon `width` pixels wide.
/// Pixels are stored tile by tile, the tiles row by row.
pub open spec fn spec_pixel_x(width: int, n: int) -> int {
    TILE_ORDER@[n % 64] % 8 + ((n / 64) % (width / 8)) * 8
}

/// The row of the `n`-th stored pixel of an icon `width` pixels wide.
pub open spec fn spec_pixel_y(width: int, n: int) -> int {
    TILE_ORDER@[n % 64] / 8 + ((n / 64) / (width / 8)) * 8
}

/// The place of the `n`-th stored pixel in an image stored row by row.
pub open spec fn spec_pixel_at(width: int, n: int) -> int {
    spec_pixel_y(width, n) * width + spec_pixel_x(width, n)
}

/// The width of an icon of `size` pixels.
pub open spec fn spec_icon_width(size: int) -> int {
    if size == SMALL_ICON_PIXELS {
        24
    } else {
        48
    }
}

/// The pixels of an icon.
#[derive(Debug, Clone, Copy)]
pub struct IconData<const SIZE: usize> {
    data: [Rgb565Pixel; SIZE],
}

/// The image, stored row by row, that the first `n` stored pixels of an
/// icon paint onto a black image, one after another.
pub open spec fn spec_painted(pixels: Seq<Rgb565Pixel>, width: int, n: int) -> Seq<Rgb888>
    decreases n,
{
    if n <= 0 {
        Seq::new((width * width) as nat, |i: int| Rgb888 { r: 0, g: 0, b: 0 })
    } else {
        spec_painted(pixels, width, n - 1).update(
            spec_pixel_at(width, n - 1),
            pixels[n - 1].spec_widen(),
        )
    }
}

/// The entries of the tile order are below 64.
proof fn lemma_tile_order_bound(k: int)
    requires
        0 <= k < 64,
    ensures
        TILE_ORDER@[k] < 64,
{
    assert(forall|j: int| 0 <= j < 64 ==> TILE_ORDER@[j] < 64) by {
        assert(TILE_ORDER@.len() == 64);
        assert forall|j: int| 0 <= j < 64 implies TILE_ORDER@[j] < 64 by {
            lemma_tile_entry(j);
        }
    }
}

/// Each entry of the tile order, one by one.
proof fn lemma_tile_entry(j: int)
    requires
        0 <= j < 64,
    ensures
        TILE_ORDER@[j] < 64,
{
    let t = TILE_ORDER;
    assert(t@[0] == 0 && t@[1] == 1 && t@[2] == 8 && t@[3] == 9 && t@[4] == 2 && t@[5] == 3
        && t@[6] == 10 && t@[7] == 11 && t@[8] == 16 && t@[9] == 17 && t@[10] == 24 && t@[11] == 25
        && t@[12] == 18 && t@[13] == 19 && t@[14] == 26 && t@[15] == 27);
    assert(t@[16] == 4 && t@[17] == 5 && t@[18] == 12 && t@[19] == 13 && t@[20] == 6 && t@[21] == 7
        && t@[22] == 14 && t@[23] == 15 && t@[24] == 20 && t@[25] == 21 && t@[26] == 28 && t@[27]
        == 29 && t@[28] == 22 && t@[29] == 23 && t@[30] == 30 && t@[31] == 31);
    assert(t@[32] == 32 && t@[33] == 33 && t@[34] == 40 && t@[35] == 41 && t@[36] == 34 && t@[37]
        == 35 && t@[38] == 42 && t@[39] == 43 && t@[40] == 48 && t@[41] == 49 && t@[42] == 56
        && t@[43] == 57 && t@[44] == 50 && t@[45] == 51 && t@[46] == 58 && t@[47] == 59);
    assert(t@[48] == 36 && t@[49] == 37 && t@[50] == 44 && t@[51] == 45 && t@[52] == 38 && t@[53]
        == 39 && t@[54] == 46 && t@[55] == 47 && t@[56] == 52 && t@[57] == 53 && t@[58] == 60
        && t@[59] == 61 && t@[60] == 54 && t@[61] == 55 && t@[62] == 62 && t@[63] == 63);
}

impl<const SIZE: usize> IconData<SIZE> {
    /// The pixels in the order in which they are stored.
    pub closed spec fn spec_pixels(&self) -> Seq<Rgb565Pixel> {
        self.data@
    }

    /// Whether the icon has the size of one of the two icons.
    pub open spec fn size_ok() -> bool {
        SIZE == SMALL_ICON_PIXELS || SIZE == BIG_ICON_PIXELS
    }

    /// Whether the icon is what the bytes at `at` say: every pixel sixteen
    /// bits, little-endian.
    pub open spec fn is_record(&self, bytes: Seq<u8>, at: int) -> bool {
        &&& self.spec_pixels().len() == SIZE
        &&& forall|i: int|
            0 <= i < SIZE ==> (#[trigger] self.spec_pixels()[i]).bits == u16_le_at(bytes, at + 2 * i)
    }

    /// Reads the icon at `at`.
    fn read(bytes: &[u8], at: usize) -> (r: IconData<SIZE>)
        requires
            at + 2 * SIZE <= bytes.len(),
        ensures
            r.is_record(bytes@, at as int),
    {
        let mut data = [Rgb565Pixel { bits: 0 };SIZE];
        let mut i: usize = 0;
        while i < SIZE
            invariant
                i <= SIZE,
                at + 2 * SIZE <= bytes.len(),
                data@.len() == SIZE,
                forall|k: int| 0 <= k < i ==> (#[trigger] data@[k]).bits == u16_le_at(bytes@, at + 2 * k),
            decreases SIZE - i,
        {
            data[i] = Rgb565Pixel { bits: read_u16_le(bytes, at + 2 * i) };
            i = i + 1;
        }
        IconData { data }
    }

    /// The pixels in the order in which they are stored.
    #[must_use]
    pub fn raw_data(&self) -> (r: &[Rgb565Pixel; SIZE])
        ensures
            r@ == self.spec_pixels(),
    {
        &self.data
    }

    /// The width of the icon, which is also its height.
    #[must_use]
    pub fn width() -> (r: u8)
        requires
            Self::size_ok(),
        ensures
            r == spec_icon_width(SIZE as int),
            r as int * r as int == SIZE,
    {
        if SIZE == SMALL_ICON_PIXELS {
            24
        } else {
            48
        }
    }

    /// The column and the row of the `n`-th stored pixel.
    pub fn pixel_position(n: usize) -> (r: (u8, u8))
        requires
            Self::size_ok(),
            n < SIZE,
        ensures
            r.0 == spec_pixel_x(spec_icon_width(SIZE as int), n as int),
            r.1 == spec_pixel_y(spec_icon_width(SIZE as int), n as int),
            r.0 < spec_icon_width(SIZE as int),
            r.1 < spec_icon_width(SIZE as int),
    {
        let width = Self::width() as usize;
        let tile = n / 64;
        let k = n % 64;
        let t = TILE_ORDER[k];
        proof {
            lemma_tile_order_bound(k as int);
        }
        if SIZE == SMALL_ICON_PIXELS {
            let x = (t % 8) as usize + (tile % 3) * 8;
            let y = (t / 8) as usize + (tile / 3) * 8;
            (x as u8, y as u8)
        } else {
            let x = (t % 8) as usize + (tile % 6) * 8;
            let y = (t / 8) as usize + (tile / 6) * 8;
            (x as u8, y as u8)
        }
    }

    /// Replaces the `n`-th stored pixel.
    pub fn set_pixel(&mut self, n: usize, pixel: Rgb565Pixel)
        requires
            n < SIZE,
        ensures
            final(self).spec_pixels() == old(self).spec_pixels().update(n as int, pixel),
    {
        self.data[n] = pixel;
    }

    /// The walk over the pixels in the order in which they are stored,
    /// standing before the first.
    #[must_use]
    pub fn pixel_iter(&self) -> (r: PixelIterator<'_, SIZE>)
        requires
            Self::size_ok(),
        ensures
            r.spec_icon() == *self,
            r.spec_n() == 0,
    {
        PixelIterator { icon: self, n: 0 }
    }

    /// The icon as an ordinary image, stored row by row: a black image
    /// onto which each stored pixel is painted at its place.
    #[must_use]
    pub fn to_rgb888(&self) -> (r: Vec<Rgb888>)
        requires
            Self::size_ok(),
        ensures
            r@ == spec_painted(self.spec_pixels(), spec_icon_width(SIZE as int), SIZE as int),
            r@.len() == SIZE,
    {
        let width = Self::width() as usize;
        let mut out: Vec<Rgb888> = Vec::new();
        let mut i: usize = 0;
        while i < SIZE
            invariant
                i <= SIZE,
                out@ == Seq::new(i as nat, |k: int| Rgb888 { r: 0, g: 0, b: 0 }),
            decreases SIZE - i,
        {
            out.push(Rgb888 { r: 0, g: 0, b: 0 });
            i = i + 1;
            assert(out@ =~= Seq::new(i as nat, |k: int| Rgb888 { r: 0, g: 0, b: 0 }));
        }
        assert(out@ =~= spec_painted(self.spec_pixels(), width as int, 0));
        let mut n: usize = 0;
        while n < SIZE
            invariant
                n <= SIZE,
                Self::size_ok(),
                width == spec_icon_width(SIZE as int),
                out@.len() == SIZE,
                out@ == spec_painted(self.spec_pixels(), width as int, n as int),
            decreases SIZE - n,
        {
            let (x, y) = Self::pixel_position(n);
            let at = y as usize * width + x as usize;
            assert(at < SIZE) by (nonlinear_arith)
                requires
                    at == y * width + x,
                    x < width,
                    y < width,
                    width * width == SIZE,
            ;
            out[at] = self.data[n].widen();
            n = n + 1;
        }
        out
    }

    /// The icon that shows the image `pixels`, stored row by row, `width`
    /// pixels wide and `height` pixels high: each stored pixel is the
    /// pixel of the image at its place, narrowed. The image must be a
    /// square of as many pixels as the icon has.
    pub fn from_rgb888(width: u32, height: u32, pixels: &[Rgb888]) -> (r: SmdhResult<IconData<SIZE>>)
        requires
            Self::size_ok(),
            pixels@.len() == width * height,
            width * height <= u32::MAX,
        ensures
            match r {
                Ok(icon) => {
                    &&& width == height
                    &&& width * width == SIZE
                    &&& icon.spec_pixels().len() == SIZE
                    &&& forall|n: int|
                        0 <= n < SIZE ==> #[trigger] icon.spec_pixels()[n]
                            == Rgb565Pixel::spec_narrow(pixels@[spec_pixel_at(width as int, n)])
                },
                Err(e) => if width != height {
                    e is OnlySquaresAllowed
                } else {
                    width * width != SIZE && e == (SmdhError::InvalidImageSize {
                        got: (width * width) as u32,
                        expected: SIZE as u32,
                    })
                },
            },
    {
        if width != height {
            return Err(SmdhError::OnlySquaresAllowed);
        }
        let icon_width = Self::width() as u32;
        if width != icon_width {
            assert(width * width != SIZE) by (nonlinear_arith)
                requires
                    width != icon_width,
                    icon_width * icon_width == SIZE,
            ;
            let got = pixels.len() as u32;
            return Err(SmdhError::InvalidImageSize { got, expected: SIZE as u32 });
        }
        let mut data = [Rgb565Pixel { bits: 0 };SIZE];
        let mut n: usize = 0;
        while n < SIZE
            invariant
                n <= SIZE,
                Self::size_ok(),
                width == spec_icon_width(SIZE as int),
                width * width == SIZE,
                pixels@.len() == SIZE,
                data@.len() == SIZE,
                forall|m: int|
                    0 <= m < n ==> #[trigger] data@[m] == Rgb565Pixel::spec_narrow(
                        pixels@[spec_pixel_at(width as int, m)],
                    ),
            decreases SIZE - n,
        {
            let (x, y) = Self::pixel_position(n);
            let at = y as usize * width as usize + x as usize;
            assert(at < SIZE) by (nonlinear_arith)
                requires
                    at == y * width + x,
                    x < width,
                    y < width,
                    width * width == SIZE,
            ;
            data[n] = Rgb565Pixel::narrow(pixels[at]);
            n = n + 1;
        }
        Ok(IconData { data })
    }
}

/// Walks the pixels of an icon in the order in which they are stored.
#[derive(Debug)]
pub struct PixelIterator<'a, const SIZE: usize> {
    icon: &'a IconData<SIZE>,
    n: usize,
}

impl<'a, const SIZE: usize> PixelIterator<'a, SIZE> {
    /// The icon that is walked.
    pub closed spec fn spec_icon(&self) -> IconData<SIZE> {
        *self.icon
    }

    /// The number of the next pixel.
    pub closed spec fn spec_n(&self) -> int {
        self.n as int
    }

    /// The next pixel with its column and its row; `None` after the last.
    pub fn next(&mut self) -> (r: Option<(u8, u8, Rgb565Pixel)>)
        requires
            IconData::<SIZE>::size_ok(),
        ensures
            final(self).spec_icon() == old(self).spec_icon(),
            match r {
                Some((x, y, pixel)) => {
                    &&& old(self).spec_n() < SIZE
                    &&& x == spec_pixel_x(spec_icon_width(SIZE as int), old(self).spec_n())
                    &&& y == spec_pixel_y(spec_icon_width(SIZE as int), old(self).spec_n())
                    &&& pixel == old(self).spec_icon().spec_pixels()[old(self).spec_n()]
                    &&& final(self).spec_n() == old(self).spec_n() + 1
                },
                None => old(self).spec_n() >= SIZE && final(self).spec_n() == old(self).spec_n(),
            },
    {
        if self.n >= SIZE {
            return None;
        }
        let (x, y) = IconData::<SIZE>::pixel_position(self.n);
        let pixel = self.icon.data[self.n];
        self.n = self.n + 1;
        Some((x, y, pixel))
    }
}


impl Rgb565Pixel {
    /// The pixel whose red and blue are the red and blue of an image's
    /// pixel shifted left by three bits, and whose green is its green
    /// shifted left by four, where those fit the pixel.
    pub fn from_image_pixel_subpixel_u8(r: u8, g: u8, b: u8) -> (p: Rgb565Pixel)
        requires
            r < 4,
            g < 4,
            b < 4,
        ensures
            p == Self::spec_new((r * 8) as u8, (g * 16) as u8, (b * 8) as u8),
    {
        Self::new(r * 8, g * 16, b * 8)
    }
}

/// The two icons of an application.
#[derive(Debug, Clone, Copy)]
pub struct SmdhIcon {
    pub small: IconData<0x240>,
    pub big: IconData<0x900>,
}

/// The magic of icon and title data.
pub open spec fn spec_smdh_magic() -> Seq<u8> {
    seq!['S' as u8, 'M' as u8, 'D' as u8, 'H' as u8]
}

/// Icon and title data, either read over caller-owned bytes or built.
#[derive(Debug)]
pub struct Smdh<'a> {
    bytes: VecOrSlice<'a, u8>,
}

impl<'a> FromBytes<'a> for Smdh<'a> {
    open spec fn spec_min_size() -> nat {
        SMDH_SIZE as nat
    }

    /// The bytes must start with the magic.
    open spec fn spec_bytes_ok(bytes: Seq<u8>) -> CytrynaResult<()> {
        if bytes.len() < 4 {
            Err(CytrynaError::SliceTooSmall)
        } else if bytes.subrange(0, 4) != spec_smdh_magic() {
            Err(CytrynaError::InvalidMagic)
        } else {
            Ok(())
        }
    }

    open spec fn spec_hash_ok(bytes: Seq<u8>) -> bool {
        true
    }

    closed spec fn raw(&self) -> Seq<u8> {
        self.bytes@
    }

    open spec fn wf(&self) -> bool {
        Self::spec_bytes_ok(self.raw()) is Ok && self.raw().len() >= SMDH_SIZE
    }

    fn min_size() -> (r: usize) {
        SMDH_SIZE
    }

    fn bytes_ok(bytes: &[u8]) -> (r: CytrynaResult<()>) {
        if bytes.len() < 4 {
            return Err(CytrynaError::SliceTooSmall);
        }
        if bytes[0] != 'S' as u8 || bytes[1] != 'M' as u8 || bytes[2] != 'D' as u8 || bytes[3]
            != 'H' as u8 {
            assert(bytes@.subrange(0, 4) != spec_smdh_magic()) by {
                assert(spec_smdh_magic()[0] == 'S' as u8 && spec_smdh_magic()[1] == 'M' as u8
                    && spec_smdh_magic()[2] == 'D' as u8 && spec_smdh_magic()[3] == 'H' as u8);
                assert(bytes@.subrange(0, 4)[0] == bytes@[0] && bytes@.subrange(0, 4)[1]
                    == bytes@[1] && bytes@.subrange(0, 4)[2] == bytes@[2] && bytes@.subrange(
                    0,
                    4,
                )[3] == bytes@[3]);
            }
            return Err(CytrynaError::InvalidMagic);
        }
        assert(bytes@.subrange(0, 4) =~= spec_smdh_magic());
        Ok(())
    }

    fn cast(bytes: &'a [u8]) -> (r: Self) {
        assert(Self::spec_min_size() == 0x36c0);
        let r = Smdh { bytes: VecOrSlice::S(bytes) };
        assert(r.raw() == bytes@);
        r
    }

    fn hash_ok(&self) -> (r: bool) {
        true
    }
}

impl<'a> Smdh<'a> {
    /// Whether the data starts with its magic, as all data that has been
    /// read does.
    pub fn looks_ok(&self) -> (r: bool)
        requires
            self.wf(),
        ensures
            r,
    {
        let bytes = self.bytes.as_slice();
        assert(bytes@.subrange(0, 4) == spec_smdh_magic());
        assert(bytes@.subrange(0, 4)[0] == bytes@[0] && bytes@.subrange(0, 4)[1] == bytes@[1]
            && bytes@.subrange(0, 4)[2] == bytes@[2] && bytes@.subrange(0, 4)[3] == bytes@[3]);
        bytes[0] == 'S' as u8 && bytes[1] == 'M' as u8 && bytes[2] == 'D' as u8 && bytes[3]
            == 'H' as u8
    }

    /// The data: the first 0x36c0 bytes.
    #[must_use]
    pub fn as_bytes(&self) -> (r: &[u8])
        requires
            self.wf(),
        ensures
            r@ == self.raw().subrange(0, SMDH_SIZE as int),
    {
        crate::bytes::window(self.bytes.as_slice(), 0, SMDH_SIZE)
    }

    /// The builder with nothing set.
    #[must_use]
    pub fn builder() -> (r: SmdhBuilder)
        ensures
            r.spec_short_desc() is None,
            r.spec_long_desc() is None,
            r.spec_publisher() is None,
            r.spec_big_icon() is None,
            r.spec_small_icon() is None,
    {
        SmdhBuilder {
            big_icon: None,
            small_icon: None,
            long_desc: None,
            short_desc: None,
            publisher: None,
        }
    }

    /// The title in the language `lang`: the 0x200 bytes at 8 plus 0x200
    /// times the language's place.
    #[must_use]
    pub fn title(&self, lang: Language) -> (r: SmdhTitle)
        requires
            self.wf(),
        ensures
            r.is_record(self.raw(), 8 + 0x200 * lang.spec_index()),
    {
        let bytes = self.bytes.as_slice();
        let at = 8 + 0x200 * lang.index();
        SmdhTitle {
            short_desc: SizedCStringUtf16 { data: read_u16_array::<0x40>(bytes, at) },
            long_desc: SizedCStringUtf16 { data: read_u16_array::<0x80>(bytes, at + 0x80) },
            publisher: SizedCStringUtf16 { data: read_u16_array::<0x40>(bytes, at + 0x180) },
        }
    }

    /// The age rating of `region`: the byte at 0x2008 plus the region's
    /// place.
    #[must_use]
    pub fn age_rating(&self, region: AgeRatingRegion) -> (r: AgeRating)
        requires
            self.wf(),
        ensures
            r.bits == self.raw()[0x2008 + region.spec_index()],
    {
        AgeRating { bits: self.bytes.as_slice()[0x2008 + region.index()] }
    }

    /// The region lockout: little-endian at 0x2018.
    #[must_use]
    pub fn region_lockout(&self) -> (r: RegionLockout)
        requires
            self.wf(),
        ensures
            r.bits == u32_le_at(self.raw(), 0x2018),
    {
        RegionLockout { bits: read_u32_le(self.bytes.as_slice(), 0x2018) }
    }

    /// The matchmaker ids: the id at 0x201c and the bit id at 0x2020,
    /// little-endian.
    #[must_use]
    pub fn matchmaker_id(&self) -> (r: MatchmakerId)
        requires
            self.wf(),
        ensures
            r.spec_id() == u32_le_at(self.raw(), 0x201c),
            r.spec_bit_id() == u64_le_at(self.raw(), 0x2020),
    {
        let bytes = self.bytes.as_slice();
        MatchmakerId { id: read_u32_le(bytes, 0x201c), bit_id: read_u64_le(bytes, 0x2020) }
    }

    /// The flags: little-endian at 0x2028.
    #[must_use]
    pub fn flags(&self) -> (r: SmdhFlags)
        requires
            self.wf(),
        ensures
            r.bits == u32_le_at(self.raw(), 0x2028),
    {
        SmdhFlags { bits: read_u32_le(self.bytes.as_slice(), 0x2028) }
    }

    /// The version of the license agreement: the bytes at 0x202c and
    /// 0x202d.
    #[must_use]
    pub fn eula_version(&self) -> (r: EulaVersion)
        requires
            self.wf(),
        ensures
            r.major == self.raw()[0x202c],
            r.minor == self.raw()[0x202d],
    {
        let bytes = self.bytes.as_slice();
        EulaVersion { major: bytes[0x202c], minor: bytes[0x202d] }
    }

    /// The bits of the 32-bit floating-point number that names the frame
    /// of the banner animation that shows the application best:
    /// little-endian at 0x2030.
    #[must_use]
    pub fn optimal_animation_default_frame_bits(&self) -> (r: u32)
        requires
            self.wf(),
        ensures
            r == u32_le_at(self.raw(), 0x2030),
    {
        read_u32_le(self.bytes.as_slice(), 0x2030)
    }

    /// The id for exchanges between consoles that pass each other:
    /// little-endian at 0x2034.
    #[must_use]
    pub fn cec_id(&self) -> (r: u32)
        requires
            self.wf(),
        ensures
            r == u32_le_at(self.raw(), 0x2034),
    {
        read_u32_le(self.bytes.as_slice(), 0x2034)
    }

    /// The big icon: 0x900 pixels at 0x24c0.
    #[must_use]
    pub fn big_icon(&self) -> (r: IconData<0x900>)
        requires
            self.wf(),
        ensures
            r.is_record(self.raw(), 0x24c0),
    {
        IconData::<0x900>::read(self.bytes.as_slice(), 0x24c0)
    }

    /// The small icon: 0x240 pixels at 0x2040.
    #[must_use]
    pub fn small_icon(&self) -> (r: IconData<0x240>)
        requires
            self.wf(),
        ensures
            r.is_record(self.raw(), 0x2040),
    {
        IconData::<0x240>::read(self.bytes.as_slice(), 0x2040)
    }
}

/// The pixel of the small icon at column `x` and row `y` that a big icon
/// is shrunk to: channel by channel the mean of the four pixels of the big
/// icon's image at `(x, y)`, `(x, y + 1)`, `(x + 1, y)` and
/// `(x + 1, y + 1)`, narrowed.
pub open spec fn spec_shrunk_pixel(big: Seq<Rgb888>, x: int, y: int) -> Rgb565Pixel {
    let one = big[y * 48 + x];
    let two = big[(y + 1) * 48 + x];
    let three = big[y * 48 + x + 1];
    let four = big[(y + 1) * 48 + x + 1];
    Rgb565Pixel::spec_narrow(
        Rgb888 {
            r: ((one.r + two.r + three.r + four.r) / 4) as u8,
            g: ((one.g + two.g + three.g + four.g) / 4) as u8,
            b: ((one.b + two.b + three.b + four.b) / 4) as u8,
        },
    )
}

/// The bits of the first `n` pixels, one after another.
pub open spec fn spec_pixel_bits(pixels: Seq<Rgb565Pixel>, n: int) -> Seq<u16> {
    Seq::new(n as nat, |i: int| pixels[i].bits)
}

/// The bytes that store a title: the short description, the long
/// description and the publisher, each unit little-endian.
pub open spec fn spec_title_bytes(
    short_desc: Seq<u16>,
    long_desc: Seq<u16>,
    publisher: Seq<u16>,
) -> Seq<u8> {
    u16s_le_bytes(short_desc, 0x40) + u16s_le_bytes(long_desc, 0x80) + u16s_le_bytes(
        publisher,
        0x40,
    )
}

/// The pixels of the small icon that a big icon with the pixels `big` is
/// shrunk to, in the order in which they are stored.
pub open spec fn spec_shrunk(big: Seq<Rgb565Pixel>) -> Seq<Rgb565Pixel> {
    Seq::new(
        0x240,
        |n: int|
            spec_shrunk_pixel(
                spec_painted(big, 48, 0x900),
                spec_pixel_x(24, n),
                spec_pixel_y(24, n),
            ),
    )
}

/// `part`, `n` times over.
pub open spec fn spec_repeated(part: Seq<u8>, n: int) -> Seq<u8>
    decreases n,
{
    if n <= 0 {
        Seq::empty()
    } else {
        spec_repeated(part, n - 1) + part
    }
}

/// A part repeated `n` times is `n` times as long.
pub proof fn lemma_repeated_len(part: Seq<u8>, n: int)
    requires
        0 <= n,
    ensures
        spec_repeated(part, n).len() == n * part.len(),
    decreases n,
{
    let len = part.len() as int;
    if n > 0 {
        lemma_repeated_len(part, n - 1);
        assert(n * len == (n - 1) * len + len) by (nonlinear_arith);
    } else {
        assert(n * len == 0) by (nonlinear_arith)
            requires
                n == 0,
        ;
    }
}

/// The age ratings of built data: none for the places 2, 5 and 12 to 15,
/// and for every other place "no age restriction", enabled.
pub open spec fn spec_built_ratings() -> Seq<u8> {
    Seq::new(16, |i: int| if i == 2 || i == 5 || i >= 12 { 0u8 } else { 0xa0u8 })
}

/// The data built from a title and two icons: the magic; version zero;
/// the title in all sixteen places; the age ratings; no region lockout;
/// no matchmaker ids; the flags "visible in the home menu", "region rating
/// required" and "record usage"; zeros up to the icons; the small icon and
/// the big icon.
pub open spec fn spec_smdh_image(
    short_desc: Seq<u16>,
    long_desc: Seq<u16>,
    publisher: Seq<u16>,
    small: Seq<Rgb565Pixel>,
    big: Seq<Rgb565Pixel>,
) -> Seq<u8> {
    spec_smdh_magic() + zeros(4) + spec_repeated(
        spec_title_bytes(short_desc, long_desc, publisher),
        16,
    ) + spec_built_ratings()
        + u32_le_bytes(RegionLockout::REGION_FREE) + zeros(12) + u32_le_bytes(0x141) + zeros(20)
        + u16s_le_bytes(spec_pixel_bits(small, 0x240), 0x240) + u16s_le_bytes(
        spec_pixel_bits(big, 0x900),
        0x900,
    )
}

/// Collects what icon and title data is built from.
#[derive(Debug)]
pub struct SmdhBuilder {
    short_desc: Option<SizedCStringUtf16<0x40>>,
    long_desc: Option<SizedCStringUtf16<0x80>>,
    publisher: Option<SizedCStringUtf16<0x40>>,
    big_icon: Option<Box<IconData<0x900>>>,
    small_icon: Option<Box<IconData<0x240>>>,
}

impl SmdhBuilder {
    /// The short description.
    pub closed spec fn spec_short_desc(&self) -> Option<Seq<u16>> {
        match self.short_desc {
            Some(s) => Some(s@),
            None => None,
        }
    }

    /// The long description.
    pub closed spec fn spec_long_desc(&self) -> Option<Seq<u16>> {
        match self.long_desc {
            Some(s) => Some(s@),
            None => None,
        }
    }

    /// The publisher.
    pub closed spec fn spec_publisher(&self) -> Option<Seq<u16>> {
        match self.publisher {
            Some(s) => Some(s@),
            None => None,
        }
    }

    /// The big icon.
    pub closed spec fn spec_big_icon(&self) -> Option<IconData<0x900>> {
        match self.big_icon {
            Some(icon) => Some(*icon),
            None => None,
        }
    }

    /// The small icon.
    pub closed spec fn spec_small_icon(&self) -> Option<IconData<0x240>> {
        match self.small_icon {
            Some(icon) => Some(*icon),
            None => None,
        }
    }

    /// Sets the short description; a text of more than 0x40 UTF-16 units
    /// is refused and changes nothing.
    pub fn with_short_desc(&mut self, desc: &str) -> (r: SmdhResult<&mut Self>)
        ensures
            match r {
                Ok(b) => {
                    &&& utf16_encoded(desc@).len() <= 0x40
                    &&& b.spec_short_desc() == Some(zero_padded(utf16_encoded(desc@), 0x40))
                    &&& b.spec_long_desc() == old(self).spec_long_desc()
                    &&& b.spec_publisher() == old(self).spec_publisher()
                    &&& b.spec_big_icon() == old(self).spec_big_icon()
                    &&& b.spec_small_icon() == old(self).spec_small_icon()
                    &&& *final(self) == *final(b)
                },
                Err(e) => {
                    &&& utf16_encoded(desc@).len() > 0x40
                    &&& e matches SmdhError::StringErr(SizedCStringError::TooBig)
                    &&& *final(self) == *old(self)
                },
            },
    {
        match SizedCStringUtf16::<0x40>::try_from_str(desc) {
            Ok(s) => {
                self.short_desc = Some(s);
                Ok(self)
            },
            Err(e) => Err(SmdhError::StringErr(e)),
        }
    }

    /// Sets the long description; a text of more than 0x80 UTF-16 units is
    /// refused and changes nothing.
    pub fn with_long_desc(&mut self, desc: &str) -> (r: SmdhResult<&mut Self>)
        ensures
            match r {
                Ok(b) => {
                    &&& utf16_encoded(desc@).len() <= 0x80
                    &&& b.spec_long_desc() == Some(zero_padded(utf16_encoded(desc@), 0x80))
                    &&& b.spec_short_desc() == old(self).spec_short_desc()
                    &&& b.spec_publisher() == old(self).spec_publisher()
                    &&& b.spec_big_icon() == old(self).spec_big_icon()
                    &&& b.spec_small_icon() == old(self).spec_small_icon()
                    &&& *final(self) == *final(b)
                },
                Err(e) => {
                    &&& utf16_encoded(desc@).len() > 0x80
                    &&& e matches SmdhError::StringErr(SizedCStringError::TooBig)
                    &&& *final(self) == *old(self)
                },
            },
    {
        match SizedCStringUtf16::<0x80>::try_from_str(desc) {
            Ok(s) => {
                self.long_desc = Some(s);
                Ok(self)
            },
            Err(e) => Err(SmdhError::StringErr(e)),
        }
    }

    /// Sets the publisher; a text of more than 0x40 UTF-16 units is
    /// refused and changes nothing.
    pub fn with_publisher(&mut self, publisher: &str) -> (r: SmdhResult<&mut Self>)
        ensures
            match r {
                Ok(b) => {
                    &&& utf16_encoded(publisher@).len() <= 0x40
                    &&& b.spec_publisher() == Some(zero_padded(utf16_encoded(publisher@), 0x40))
                    &&& b.spec_short_desc() == old(self).spec_short_desc()
                    &&& b.spec_long_desc() == old(self).spec_long_desc()
                    &&& b.spec_big_icon() == old(self).spec_big_icon()
                    &&& b.spec_small_icon() == old(self).spec_small_icon()
                    &&& *final(self) == *final(b)
                },
                Err(e) => {
                    &&& utf16_encoded(publisher@).len() > 0x40
                    &&& e matches SmdhError::StringErr(SizedCStringError::TooBig)
                    &&& *final(self) == *old(self)
                },
            },
    {
        match SizedCStringUtf16::<0x40>::try_from_str(publisher) {
            Ok(s) => {
                self.publisher = Some(s);
                Ok(self)
            },
            Err(e) => Err(SmdhError::StringErr(e)),
        }
    }

    /// Sets the small icon. Where it is never set, the big icon is shrunk
    /// to it.
    pub fn with_small_icon(&mut self, icon: IconData<0x240>) -> (r: &mut Self)
        ensures
            r.spec_small_icon() == Some(icon),
            r.spec_short_desc() == old(self).spec_short_desc(),
            r.spec_long_desc() == old(self).spec_long_desc(),
            r.spec_publisher() == old(self).spec_publisher(),
            r.spec_big_icon() == old(self).spec_big_icon(),
            *final(self) == *final(r),
    {
        self.small_icon = Some(Box::new(icon));
        self
    }

    /// Sets the big icon.
    pub fn with_icon(&mut self, icon: IconData<0x900>) -> (r: &mut Self)
        ensures
            r.spec_big_icon() == Some(icon),
            r.spec_short_desc() == old(self).spec_short_desc(),
            r.spec_long_desc() == old(self).spec_long_desc(),
            r.spec_publisher() == old(self).spec_publisher(),
            r.spec_small_icon() == old(self).spec_small_icon(),
            *final(self) == *final(r),
    {
        self.big_icon = Some(Box::new(icon));
        self
    }

    /// The small icon that `big` is shrunk to.
    pub fn shrink(big: &IconData<0x900>) -> (r: IconData<0x240>)
        ensures
            r.spec_pixels().len() == 0x240,
            forall|n: int|
                0 <= n < 0x240 ==> #[trigger] r.spec_pixels()[n] == spec_shrunk_pixel(
                    spec_painted(big.spec_pixels(), 48, 0x900),
                    spec_pixel_x(24, n),
                    spec_pixel_y(24, n),
                ),
    {
        let img = big.to_rgb888();
        let mut data = [Rgb565Pixel { bits: 0 };0x240];
        let mut n: usize = 0;
        while n < 0x240
            invariant
                n <= 0x240,
                img@ == spec_painted(big.spec_pixels(), 48, 0x900),
                img@.len() == 0x900,
                data@.len() == 0x240,
                forall|m: int|
                    0 <= m < n ==> #[trigger] data@[m] == spec_shrunk_pixel(
                        img@,
                        spec_pixel_x(24, m),
                        spec_pixel_y(24, m),
                    ),
            decreases 0x240 - n,
        {
            let (x, y) = IconData::<0x240>::pixel_position(n);
            let x = x as usize;
            let y = y as usize;
            let one = img[y * 48 + x];
            let two = img[(y + 1) * 48 + x];
            let three = img[y * 48 + x + 1];
            let four = img[(y + 1) * 48 + x + 1];
            let r = (one.r as u32 + two.r as u32 + three.r as u32 + four.r as u32) / 4;
            let g = (one.g as u32 + two.g as u32 + three.g as u32 + four.g as u32) / 4;
            let b = (one.b as u32 + two.b as u32 + three.b as u32 + four.b as u32) / 4;
            data[n] = Rgb565Pixel::narrow(Rgb888 { r: r as u8, g: g as u8, b: b as u8 });
            n = n + 1;
        }
        IconData { data }
    }

    /// What `build` gives: the data, or what is missing for it. The short
    /// description is missed first, then the long description, the
    /// publisher, and the big icon.
    pub open spec fn spec_build(&self) -> Result<Seq<u8>, SmdhError> {
        if self.spec_short_desc() is None {
            Err(SmdhError::MissingShortDesc)
        } else if self.spec_long_desc() is None {
            Err(SmdhError::MissingLongDesc)
        } else if self.spec_publisher() is None {
            Err(SmdhError::MissingPublisher)
        } else if self.spec_big_icon() is None {
            Err(SmdhError::MissingIcon)
        } else {
            let big = self.spec_big_icon()->Some_0.spec_pixels();
            Ok(
                spec_smdh_image(
                    self.spec_short_desc()->Some_0,
                    self.spec_long_desc()->Some_0,
                    self.spec_publisher()->Some_0,
                    match self.spec_small_icon() {
                        Some(small) => small.spec_pixels(),
                        None => spec_shrunk(big),
                    },
                    big,
                ),
            )
        }
    }

    /// Appends the pixels of an icon, each sixteen bits little-endian.
    fn push_icon<const SIZE: usize>(out: &mut Vec<u8>, icon: &IconData<SIZE>)
        ensures
            final(out)@ == old(out)@ + u16s_le_bytes(
                spec_pixel_bits(icon.spec_pixels(), SIZE as int),
                SIZE as int,
            ),
    {
        let ghost bits = spec_pixel_bits(icon.spec_pixels(), SIZE as int);
        let mut i: usize = 0;
        assert(out@ =~= old(out)@ + u16s_le_bytes(bits, 0));
        while i < SIZE
            invariant
                i <= SIZE,
                bits == spec_pixel_bits(icon.spec_pixels(), SIZE as int),
                icon.spec_pixels().len() == SIZE,
                out@ == old(out)@ + u16s_le_bytes(bits, i as int),
            decreases SIZE - i,
        {
            push_u16_le(out, icon.data[i].bits);
            i = i + 1;
            assert(out@ =~= old(out)@ + u16s_le_bytes(bits, i as int));
        }
    }

    /// Builds the data. The builder gives away what it has of the title
    /// and the icons up to the first thing that is missing: the short
    /// description, the long description, the publisher and the big icon, in
    /// that order, and the small icon only where the data is built.
    pub fn build(&mut self) -> (r: Result<Smdh<'static>, SmdhError>)
        ensures
            match r {
                Ok(smdh) => {
                    &&& old(self).spec_build() == Ok::<Seq<u8>, SmdhError>(smdh.raw())
                    &&& smdh.wf()
                    &&& smdh.raw().len() == SMDH_SIZE
                },
                Err(e) => old(self).spec_build() == Err::<Seq<u8>, SmdhError>(e),
            },
            final(self).spec_short_desc() is None,
            final(self).spec_long_desc() == (if old(self).spec_short_desc() is None {
                old(self).spec_long_desc()
            } else {
                None
            }),
            final(self).spec_publisher() == (if old(self).spec_short_desc() is None
                || old(self).spec_long_desc() is None {
                old(self).spec_publisher()
            } else {
                None
            }),
            final(self).spec_big_icon() == (if old(self).spec_short_desc() is None
                || old(self).spec_long_desc() is None || old(self).spec_publisher() is None {
                old(self).spec_big_icon()
            } else {
                None
            }),
            final(self).spec_small_icon() == (if old(self).spec_build() is Err {
                old(self).spec_small_icon()
            } else {
                None
            }),
    {
        let short_desc = match self.short_desc.take() {
            Some(s) => s,
            None => {
                return Err(SmdhError::MissingShortDesc);
            },
        };
        let long_desc = match self.long_desc.take() {
            Some(s) => s,
            None => {
                return Err(SmdhError::MissingLongDesc);
            },
        };
        let publisher = match self.publisher.take() {
            Some(s) => s,
            None => {
                return Err(SmdhError::MissingPublisher);
            },
        };
        let mut title: Vec<u8> = Vec::new();
        push_u16s_le(&mut title, short_desc.data.as_slice());
        push_u16s_le(&mut title, long_desc.data.as_slice());
        push_u16s_le(&mut title, publisher.data.as_slice());
        let big = match self.big_icon.take() {
            Some(icon) => icon,
            None => {
                return Err(SmdhError::MissingIcon);
            },
        };
        let small = match self.small_icon.take() {
            Some(icon) => *icon,
            None => {
                let shrunk = Self::shrink(&*big);
                assert(shrunk.spec_pixels() =~= spec_shrunk(big.spec_pixels()));
                shrunk
            },
        };
        let magic: [u8; 4] = ['S' as u8, 'M' as u8, 'D' as u8, 'H' as u8];
        assert(magic@ =~= spec_smdh_magic());
        let mut buf: Vec<u8> = Vec::new();
        push_bytes(&mut buf, magic.as_slice());
        push_zeros(&mut buf, 4);
        let ghost head = buf@;
        let mut i: usize = 0;
        assert(buf@ =~= head + spec_repeated(title@, 0));
        while i < 16
            invariant
                i <= 16,
                buf@ == head + spec_repeated(title@, i as int),
            decreases 16 - i,
        {
            push_bytes(&mut buf, title.as_slice());
            i = i + 1;
            assert(buf@ =~= head + spec_repeated(title@, i as int));
        }
        let ghost before_ratings = buf@;
        let mut i: usize = 0;
        while i < 16
            invariant
                i <= 16,
                buf@.len() == before_ratings.len() + i,
                buf@.take(before_ratings.len() as int) == before_ratings,
                forall|k: int| 0 <= k < i ==> buf@[before_ratings.len() + k] == spec_built_ratings()[k],
            decreases 16 - i,
        {
            if i == 2 || i == 5 || i >= 12 {
                buf.push(0);
            } else {
                buf.push(AgeRating::NO_AGE_RESTRICTION | AgeRating::ENABLED);
            }
            assert(AgeRating::NO_AGE_RESTRICTION | AgeRating::ENABLED == 0xa0u8) by (bit_vector);
            i = i + 1;
        }
        assert(buf@ =~= before_ratings + spec_built_ratings());
        push_u32_le(&mut buf, RegionLockout::REGION_FREE);
        push_zeros(&mut buf, 12);
        push_u32_le(
            &mut buf,
            SmdhFlags::VISIBLE_IN_HOMEMENU | SmdhFlags::REGION_RATING_REQUIRED
                | SmdhFlags::RECORD_USAGE,
        );
        assert(SmdhFlags::VISIBLE_IN_HOMEMENU | SmdhFlags::REGION_RATING_REQUIRED
            | SmdhFlags::RECORD_USAGE == 0x141u32) by (bit_vector);
        push_zeros(&mut buf, 20);
        Self::push_icon::<0x240>(&mut buf, &small);
        Self::push_icon::<0x900>(&mut buf, &*big);
        proof {
            lemma_u16s_le_len(short_desc@, 0x40);
            lemma_u16s_le_len(long_desc@, 0x80);
            lemma_u16s_le_len(publisher@, 0x40);
            lemma_repeated_len(title@, 16);
            lemma_u16s_le_len(spec_pixel_bits(small.spec_pixels(), 0x240), 0x240);
            lemma_u16s_le_len(spec_pixel_bits(big.spec_pixels(), 0x900), 0x900);
            assert(buf@.len() == SMDH_SIZE);
            assert(buf@.subrange(0, 4) =~= spec_smdh_magic());
        }
        let smdh = Smdh { bytes: VecOrSlice::V(buf) };
        assert(smdh.raw() == buf@);
        Ok(smdh)
    }
}

} // verus!
