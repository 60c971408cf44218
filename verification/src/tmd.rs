//! Title metadata: the signed payload that describes the contents of a
//! title, chunk by chunk.

use vstd::prelude::*;
use crate::bytes::{
    all_zero, read_array, read_u16_be, read_u32_be, read_u64_be, u16_be_at, u32_be_at, u64_be_at,
};
use crate::crypto::SignedData;
use crate::error::{CytrynaError, CytrynaResult};
use crate::titleid::{MaybeTitleIdBe, TitleId, Platform};
use crate::FromBytes;

verus! {

/// The least length of the data of a title's metadata.
pub const TMD_MIN_SIZE: usize = 0x64;

/// Where the content count stands in the data.
pub const TMD_CONTENT_COUNT_AT: usize = 0x5e;

/// Where the table of content chunks starts: after the header of 0x84
/// bytes and the 64 content info records of 0x24 bytes each.
pub const TMD_CHUNKS_AT: usize = 0x984;

/// The length of one content chunk record.
pub const CHUNK_SIZE: usize = 0x30;

/// What part of a title a content is.
#[derive(Debug, Clone, Copy, PartialEq, Eq, Structural)]
pub enum ContentIndex {
    Main,
    Manual,
    Dlp,
}

impl ContentIndex {
    /// The number that stands for the index.
    pub open spec fn spec_code(self) -> u8 {
        match self {
            ContentIndex::Main => 0,
            ContentIndex::Manual => 1,
            ContentIndex::Dlp => 2,
        }
    }

    /// The number that stands for the index.
    pub fn code(self) -> (r: u8)
        ensures
            r == self.spec_code(),
    {
        match self {
            ContentIndex::Main => 0,
            ContentIndex::Manual => 1,
            ContentIndex::Dlp => 2,
        }
    }

    /// The index that a number stands for, if it stands for one.
    pub fn from_code(code: u8) -> (r: Option<ContentIndex>)
        ensures
            match r {
                Some(idx) => idx.spec_code() == code,
                None => code > 2,
            },
    {
        if code == 0 {
            Some(ContentIndex::Main)
        } else if code == 1 {
            Some(ContentIndex::Manual)
        } else if code == 2 {
            Some(ContentIndex::Dlp)
        } else {
            None
        }
    }
}

/// The type flags of a content.
#[derive(Debug, Clone, Copy, PartialEq, Eq, Structural)]
pub struct ContentType {
    bits: u16,
}

impl ContentType {
    pub const ENCRYPTED: u16 = 0x1;

    pub const DISC: u16 = 0x2;

    pub const CFM: u16 = 0x4;

    pub const OPTIONAL: u16 = 0x4000;

    pub const SHARED: u16 = 0x8000;

    /// The flag bits.
    pub closed spec fn spec_bits(self) -> u16 {
        self.bits
    }

    /// Whether every bit of `flags` is set.
    pub open spec fn spec_contains(self, flags: u16) -> bool {
        self.spec_bits() & flags == flags
    }

    /// The flags with exactly these bits.
    pub fn from_bits_retain(bits: u16) -> (r: ContentType)
        ensures
            r.spec_bits() == bits,
    {
        ContentType { bits }
    }

    /// The flag bits.
    pub fn bits(&self) -> (r: u16)
        ensures
            r == self.spec_bits(),
    {
        self.bits
    }

    /// Whether every bit of `flags` is set.
    pub fn contains(&self, flags: u16) -> (r: bool)
        ensures
            r == self.spec_contains(flags),
    {
        self.bits & flags == flags
    }
}

/// The description of one content chunk.
#[derive(Debug, Copy, Clone)]
pub struct ContentChunk {
    id: u32,
    idx: ContentIndex,
    ty: ContentType,
    size: u64,
    hash: [u8; 0x20],
}

impl ContentChunk {
    /// The id.
    pub closed spec fn spec_id(&self) -> u32 {
        self.id
    }

    /// What part of the title the content is.
    pub closed spec fn spec_idx(&self) -> ContentIndex {
        self.idx
    }

    /// The type.
    pub closed spec fn spec_ty(&self) -> ContentType {
        self.ty
    }

    /// The length in bytes.
    pub closed spec fn spec_size(&self) -> u64 {
        self.size
    }

    /// The SHA-256 hash.
    pub closed spec fn spec_hash(&self) -> Seq<u8> {
        self.hash@
    }

    /// Whether the chunk is what the record of 0x30 bytes at `at` says: the
    /// id big-endian, a byte of padding, the index, the type flags and the
    /// size big-endian, and the SHA-256 hash.
    pub open spec fn is_record(&self, bytes: Seq<u8>, at: int) -> bool {
        &&& self.spec_id() == u32_be_at(bytes, at)
        &&& self.spec_idx().spec_code() == bytes[at + 5]
        &&& self.spec_ty().spec_bits() == u16_be_at(bytes, at + 6)
        &&& self.spec_size() == u64_be_at(bytes, at + 8)
        &&& self.spec_hash() == bytes.subrange(at + 0x10, at + 0x30)
    }

    /// Reads the record at `at`.
    fn read(bytes: &[u8], at: usize) -> (r: ContentChunk)
        requires
            at + 0x30 <= bytes.len(),
            bytes@[at + 5] <= 2,
        ensures
            r.is_record(bytes@, at as int),
    {
        let idx = match ContentIndex::from_code(bytes[at + 5]) {
            Some(idx) => idx,
            None => vstd::pervasive::unreached(),
        };
        ContentChunk {
            id: read_u32_be(bytes, at),
            idx,
            ty: ContentType::from_bits_retain(read_u16_be(bytes, at + 6)),
            size: read_u64_be(bytes, at + 8),
            hash: read_array::<0x20>(bytes, at + 0x10),
        }
    }

    /// The id of the content.
    #[must_use]
    pub fn id(&self) -> (r: u32)
        ensures
            r == self.spec_id(),
    {
        self.id
    }

    /// What part of the title the content is.
    #[must_use]
    pub fn idx(&self) -> (r: ContentIndex)
        ensures
            r == self.spec_idx(),
    {
        self.idx
    }

    /// The type flags.
    #[must_use]
    pub fn ty(&self) -> (r: ContentType)
        ensures
            r == self.spec_ty(),
    {
        self.ty
    }

    /// The length of the content in bytes.
    #[must_use]
    pub fn size(&self) -> (r: u64)
        ensures
            r == self.spec_size(),
    {
        self.size
    }

    /// The SHA-256 hash of the content.
    #[must_use]
    pub fn hash(&self) -> (r: &[u8; 0x20])
        ensures
            r@ == self.spec_hash(),
    {
        &self.hash
    }

    /// Whether the record is empty: no type flag, no size, a hash of
    /// zeros.
    #[must_use]
    pub fn is_nil(&self) -> (r: bool)
        ensures
            r == (self.spec_ty().spec_bits() == 0 && self.spec_size() == 0 && forall|k: int|
                0 <= k < self.spec_hash().len() ==> self.spec_hash()[k] == 0),
    {
        let hash = self.hash.as_slice();
        let zero = all_zero(hash);
        assert(hash@ =~= self.spec_hash());
        self.ty.bits == 0 && self.size == 0 && zero
    }
}

/// One of the 64 content info records.
#[derive(Debug, Copy, Clone)]
pub struct ContentInfo {
    pub idx: u8,
    pub cmd_count: u16,
    pub hash: [u8; 0x20],
}

impl ContentInfo {
    /// Whether the record is empty: no command count and a hash of zeros.
    pub fn is_nil(&self) -> (r: bool)
        ensures
            r == (self.cmd_count == 0 && forall|k: int|
                0 <= k < self.hash@.len() ==> self.hash@[k] == 0),
    {
        let hash = self.hash.as_slice();
        let zero = all_zero(hash);
        assert(hash@ =~= self.hash@);
        self.cmd_count == 0 && zero
    }
}

/// The number of content chunks that the data declares: big-endian at
/// 0x5e.
pub open spec fn spec_content_count(bytes: Seq<u8>) -> u16 {
    u16_be_at(bytes, TMD_CONTENT_COUNT_AT as int)
}

/// Where the record of chunk `i` starts.
pub open spec fn spec_chunk_at(i: int) -> int {
    TMD_CHUNKS_AT as int + CHUNK_SIZE as int * i
}

/// Whether the index byte of every declared chunk stands for an index.
pub open spec fn chunk_indexes_ok(bytes: Seq<u8>) -> bool {
    forall|i: int| 0 <= i < spec_content_count(bytes) ==> #[trigger] bytes[spec_chunk_at(i) + 5] <= 2
}

/// The data of a title's metadata, without the issuer's name, read over
/// caller-owned bytes, with its chunk table decoded.
#[derive(Debug)]
pub struct TmdInner<'a> {
    bytes: &'a [u8],
    chunks: Vec<ContentChunk>,
}

impl<'a> TmdInner<'a> {
    /// The decoded chunk table.
    pub closed spec fn spec_chunks(&self) -> Seq<ContentChunk> {
        self.chunks@
    }
}

impl<'a> FromBytes<'a> for TmdInner<'a> {
    open spec fn spec_min_size() -> nat {
        TMD_MIN_SIZE as nat
    }

    /// The data must reach to the end of the chunk table that it declares,
    /// and every chunk of the table must have an index that exists.
    open spec fn spec_bytes_ok(bytes: Seq<u8>) -> CytrynaResult<()> {
        if bytes.len() < TMD_MIN_SIZE {
            Err(CytrynaError::SliceTooSmall)
        } else if bytes.len() < spec_chunk_at(spec_content_count(bytes) as int) {
            Err(CytrynaError::SliceTooSmall)
        } else if !chunk_indexes_ok(bytes) {
            Err(CytrynaError::EnumValueOutOfRange("ContentIndex"))
        } else {
            Ok(())
        }
    }

    open spec fn spec_hash_ok(bytes: Seq<u8>) -> bool {
        true
    }

    closed spec fn raw(&self) -> Seq<u8> {
        self.bytes@
    }

    /// The chunk table has as many chunks as the data declares, and each
    /// is what its record says.
    open spec fn wf(&self) -> bool {
        &&& Self::spec_bytes_ok(self.raw()) is Ok
        &&& self.spec_chunks().len() == spec_content_count(self.raw())
        &&& forall|i: int|
            0 <= i < self.spec_chunks().len() ==> (#[trigger] self.spec_chunks()[i]).is_record(
                self.raw(),
                spec_chunk_at(i),
            )
    }

    fn min_size() -> (r: usize) {
        TMD_MIN_SIZE
    }

    fn bytes_ok(bytes: &[u8]) -> (r: CytrynaResult<()>) {
        if bytes.len() < TMD_MIN_SIZE {
            return Err(CytrynaError::SliceTooSmall);
        }
        let count = read_u16_be(bytes, TMD_CONTENT_COUNT_AT) as usize;
        if bytes.len() < TMD_CHUNKS_AT + CHUNK_SIZE * count {
            return Err(CytrynaError::SliceTooSmall);
        }
        let mut i: usize = 0;
        while i < count
            invariant
                i <= count,
                count == spec_content_count(bytes@),
                bytes.len() >= TMD_CHUNKS_AT + CHUNK_SIZE * count,
                forall|k: int| 0 <= k < i ==> #[trigger] bytes@[spec_chunk_at(k) + 5] <= 2,
            decreases count - i,
        {
            if bytes[TMD_CHUNKS_AT + CHUNK_SIZE * i + 5] > 2 {
                assert(bytes@[spec_chunk_at(i as int) + 5] > 2);
                return Err(CytrynaError::EnumValueOutOfRange("ContentIndex"));
            }
            i = i + 1;
        }
        Ok(())
    }

    fn cast(bytes: &'a [u8]) -> (r: Self) {
        let count = read_u16_be(bytes, TMD_CONTENT_COUNT_AT) as usize;
        let mut chunks: Vec<ContentChunk> = Vec::new();
        let mut i: usize = 0;
        while i < count
            invariant
                i <= count,
                count == spec_content_count(bytes@),
                bytes.len() >= TMD_CHUNKS_AT + CHUNK_SIZE * count,
                chunk_indexes_ok(bytes@),
                chunks@.len() == i,
                forall|k: int|
                    0 <= k < i ==> (#[trigger] chunks@[k]).is_record(bytes@, spec_chunk_at(k)),
            decreases count - i,
        {
            assert(bytes@[spec_chunk_at(i as int) + 5] <= 2);
            let chunk = ContentChunk::read(bytes, TMD_CHUNKS_AT + CHUNK_SIZE * i);
            chunks.push(chunk);
            i = i + 1;
        }
        let r = TmdInner { bytes, chunks };
        assert(r.raw() == bytes@);
        r
    }

    fn hash_ok(&self) -> (r: bool) {
        true
    }
}

impl<'a> TmdInner<'a> {
    /// The version of the metadata format: the first byte.
    pub fn version(&self) -> (r: u8)
        requires
            self.wf(),
        ensures
            r == self.raw()[0],
    {
        self.bytes[0]
    }

    /// The id of the title: big-endian at 0xc.
    pub fn title_id(&self) -> (r: MaybeTitleIdBe)
        requires
            self.wf(),
        ensures
            r.raw == u64_be_at(self.raw(), 0xc),
    {
        MaybeTitleIdBe { raw: read_u64_be(self.bytes, 0xc) }
    }

    /// The version of the title: big-endian at 0x5c.
    pub fn title_version(&self) -> (r: u16)
        requires
            self.wf(),
        ensures
            r == u16_be_at(self.raw(), 0x5c),
    {
        read_u16_be(self.bytes, 0x5c)
    }

    /// The number of content chunks: big-endian at 0x5e.
    pub fn content_count(&self) -> (r: u16)
        requires
            self.wf(),
        ensures
            r == spec_content_count(self.raw()),
    {
        read_u16_be(self.bytes, TMD_CONTENT_COUNT_AT)
    }

    /// The index of the content that boots: big-endian at 0x60.
    pub fn boot_content(&self) -> (r: u16)
        requires
            self.wf(),
        ensures
            r == u16_be_at(self.raw(), 0x60),
    {
        read_u16_be(self.bytes, 0x60)
    }

    /// The content info record `i` of the 64, where the data reaches that
    /// far: the index at the second byte, the command count big-endian
    /// after it, and the hash.
    pub fn content_info(&self, i: usize) -> (r: ContentInfo)
        requires
            self.wf(),
            i < 64,
        ensures
            r.idx == self.raw()[0x84 + 0x24 * i + 1],
            r.cmd_count == u16_be_at(self.raw(), 0x84 + 0x24 * i + 2),
            r.hash@ == self.raw().subrange(0x84 + 0x24 * i + 4, 0x84 + 0x24 * i + 0x24),
    {
        let at = 0x84 + 0x24 * i;
        ContentInfo {
            idx: self.bytes[at + 1],
            cmd_count: read_u16_be(self.bytes, at + 2),
            hash: read_array::<0x20>(self.bytes, at + 4),
        }
    }

    /// The chunk table.
    pub fn content_chunks(&self) -> (r: &[ContentChunk])
        requires
            self.wf(),
        ensures
            r@ == self.spec_chunks(),
            r@.len() == spec_content_count(self.raw()),
    {
        self.chunks.as_slice()
    }
}

/// Title metadata: the signed envelope around the metadata's data.
pub type Tmd<'a> = SignedData<'a, TmdInner<'a>>;

impl<'a> SignedData<'a, TmdInner<'a>> {
    /// The id of the title, where its platform exists.
    #[must_use]
    pub fn title_id(&self) -> (r: CytrynaResult<TitleId>)
        requires
            self.wf(),
        ensures
            match r {
                Ok(t) => t.spec_to_u64() == u64_be_at(self.payload().raw(), 0xc),
                Err(e) => e == CytrynaError::EnumValueOutOfRange("smdh::Platform"),
            },
            r is Ok <==> Platform::spec_from_code(
                (u64_be_at(self.payload().raw(), 0xc) / 0x1_0000_0000_0000) as u16,
            ) is Some,
    {
        self.data().title_id().to_titleid()
    }

    /// The number of content chunks that the metadata declares.
    #[must_use]
    pub fn content_count(&self) -> (r: u16)
        requires
            self.wf(),
        ensures
            r == spec_content_count(self.payload().raw()),
    {
        self.data().content_count()
    }

    /// The table of content chunks: as many chunks as the metadata
    /// declares, each what its record of 0x30 bytes says, in the order of
    /// the records.
    #[must_use]
    pub fn content_chunks(&self) -> (r: &[ContentChunk])
        requires
            self.wf(),
        ensures
            r@ == self.payload().spec_chunks(),
            r@.len() == spec_content_count(self.payload().raw()),
            forall|i: int|
                0 <= i < r@.len() ==> (#[trigger] r@[i]).is_record(
                    self.payload().raw(),
                    spec_chunk_at(i),
                ),
    {
        self.data().content_chunks()
    }
}

} // verus!
