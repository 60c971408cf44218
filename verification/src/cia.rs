//! The installable package: a header, and after it the certificate chain,
//! the ticket, the title metadata, the contents and an optional meta
//! region, each starting on a 64-byte boundary.

use vstd::prelude::*;
use crate::bytes::{read_u16_le, read_u32_le, read_u64_le, u16_le_at, u32_le_at, u64_le_at, window};
use crate::crypto::{
    aes128_cbc_decrypt, aes128_cbc_decrypted, spec_signed_data, GlobalKeyBag, KeyBag,
    SignatureType, SignedData,
};
use crate::error::{CytrynaError, CytrynaResult};
use crate::ticket::{spec_title_key, Ticket, TicketInner};
use crate::titleid::{MaybeTitleId, Platform, TitleId};
use crate::tmd::{ContentChunk, ContentIndex, ContentType, Tmd, TmdInner};
use crate::smdh::Smdh;
use crate::{spec_align_up, FromBytes, VecOrSlice};

verus! {

/// The length of the header.
pub const CIA_HEADER_SIZE: usize = 0x2020;

/// Where the regions start: at the first 64-byte boundary after the header.
pub const CIA_DATA_AT: usize = 0x2040;

/// The length of the meta region.
pub const META_REGION_SIZE: usize = 0x3ac0;

/// `what` rounded up to the next multiple of 64.
#[verifier::opaque]
pub open spec fn spec_align(what: int) -> int {
    spec_align_up(what, 0x40)
}

/// `what` rounded up to the next multiple of 64: the least multiple of 64
/// that is not below `what`. The rounding must stay inside the machine's
/// `usize`, as it does for every `what` where `usize` has 64 bits, and for
/// every `what` up to 0xffff_ffc0 where it has 32.
pub fn align(what: u32) -> (r: usize)
    requires
        what + 0x3f <= usize::MAX,
    ensures
        r == spec_align(what as int),
        r == (what + 63) / 64 * 64,
        r % 0x40 == 0,
        what <= r < what + 0x40,
{
    proof {
        lemma_align_bounds(what as int);
    }
    reveal(spec_align);
    let what = what as usize;
    if what % 0x40 != 0 {
        what + (0x40 - (what % 0x40))
    } else {
        what
    }
}

/// Rounding up to a multiple of 64 gives the least multiple of 64 that is
/// not below the value: it adds less than 64 and takes nothing away, it
/// leaves a multiple of 64 as it is, and so rounding twice is rounding
/// once.
pub proof fn lemma_align_bounds(what: int)
    requires
        0 <= what,
    ensures
        what <= spec_align(what) < what + 0x40,
        spec_align(what) % 0x40 == 0,
        spec_align(what) == (what + 63) / 64 * 64,
        what % 0x40 == 0 ==> spec_align(what) == what,
        spec_align(spec_align(what)) == spec_align(what),
{
    reveal(spec_align);
}

/// `what` rounded up to the next multiple of 64, where that is a 64-bit
/// number.
fn align64(what: u64) -> (r: Option<u64>)
    ensures
        match r {
            Some(v) => v == spec_align(what as int),
            None => spec_align(what as int) > u64::MAX,
        },
        what <= 0xffff_ffff ==> r is Some && r->Some_0 <= 0x1_0000_0000,
{
    reveal(spec_align);
    let rem = what % 0x40;
    if rem == 0 {
        Some(what)
    } else if what <= u64::MAX - (0x40 - rem) {
        Some(what + (0x40 - rem))
    } else {
        None
    }
}

/// The header of a package.
#[derive(Debug, Clone)]
pub struct CiaHeader {
    hdr_size: u32,
    ty: u16,
    version: u16,
    cert_size: u32,
    ticket_size: u32,
    tmd_size: u32,
    meta_size: u32,
    content_size: u64,
    content_index: Vec<u8>,
}

impl CiaHeader {
    /// The size that the header declares for itself.
    pub closed spec fn spec_hdr_size(&self) -> u32 {
        self.hdr_size
    }

    /// The type.
    pub closed spec fn spec_ty(&self) -> u16 {
        self.ty
    }

    /// The version of the package format.
    pub closed spec fn spec_version(&self) -> u16 {
        self.version
    }

    /// The size of the certificate chain.
    pub closed spec fn spec_cert_size(&self) -> u32 {
        self.cert_size
    }

    /// The size of the ticket.
    pub closed spec fn spec_ticket_size(&self) -> u32 {
        self.ticket_size
    }

    /// The size of the title metadata.
    pub closed spec fn spec_tmd_size(&self) -> u32 {
        self.tmd_size
    }

    /// The size of the meta region; zero where there is none.
    pub closed spec fn spec_meta_size(&self) -> u32 {
        self.meta_size
    }

    /// The size of all contents together.
    pub closed spec fn spec_content_size(&self) -> u64 {
        self.content_size
    }

    /// The content index.
    pub closed spec fn spec_content_index(&self) -> Seq<u8> {
        self.content_index@
    }

    /// Whether the header is what the first 0x2020 bytes of `bytes` say,
    /// every number little-endian: the header's size, the type and the
    /// version, the sizes of the certificate chain, the ticket, the title
    /// metadata and the meta region, the size of the contents, and the
    /// content index of 0x2000 bytes.
    pub open spec fn is_header_of(&self, bytes: Seq<u8>) -> bool {
        &&& self.spec_hdr_size() == u32_le_at(bytes, 0)
        &&& self.spec_ty() == u16_le_at(bytes, 4)
        &&& self.spec_version() == u16_le_at(bytes, 6)
        &&& self.spec_cert_size() == u32_le_at(bytes, 8)
        &&& self.spec_ticket_size() == u32_le_at(bytes, 0xc)
        &&& self.spec_tmd_size() == u32_le_at(bytes, 0x10)
        &&& self.spec_meta_size() == u32_le_at(bytes, 0x14)
        &&& self.spec_content_size() == u64_le_at(bytes, 0x18)
        &&& self.spec_content_index() == bytes.subrange(0x20, 0x2020)
    }

    /// Where the ticket starts among the regions.
    pub open spec fn spec_ticket_at(&self) -> int {
        spec_align(self.spec_cert_size() as int)
    }

    /// Where the title metadata starts among the regions.
    pub open spec fn spec_tmd_at(&self) -> int {
        self.spec_ticket_at() + spec_align(self.spec_ticket_size() as int)
    }

    /// Where the contents start among the regions.
    pub open spec fn spec_content_at(&self) -> int {
        self.spec_tmd_at() + spec_align(self.spec_tmd_size() as int)
    }

    /// Where the meta region starts among the regions.
    pub open spec fn spec_meta_at(&self) -> int {
        self.spec_content_at() + spec_align(self.spec_content_size() as int)
    }

    /// Reads the header.
    fn read(bytes: &[u8]) -> (r: CiaHeader)
        requires
            bytes.len() >= CIA_HEADER_SIZE,
        ensures
            r.is_header_of(bytes@),
    {
        let index = window(bytes, 0x20, 0x2000);
        CiaHeader {
            hdr_size: read_u32_le(bytes, 0),
            ty: read_u16_le(bytes, 4),
            version: read_u16_le(bytes, 6),
            cert_size: read_u32_le(bytes, 8),
            ticket_size: read_u32_le(bytes, 0xc),
            tmd_size: read_u32_le(bytes, 0x10),
            meta_size: read_u32_le(bytes, 0x14),
            content_size: read_u64_le(bytes, 0x18),
            content_index: vstd::slice::slice_to_vec(index),
        }
    }

    /// The size that the header declares for itself.
    pub fn hdr_size(&self) -> (r: u32)
        ensures
            r == self.spec_hdr_size(),
    {
        self.hdr_size
    }

    /// The type of the package.
    pub fn ty(&self) -> (r: u16)
        ensures
            r == self.spec_ty(),
    {
        self.ty
    }

    /// The version of the package format.
    pub fn version(&self) -> (r: u16)
        ensures
            r == self.spec_version(),
    {
        self.version
    }

    /// The size of the certificate chain.
    pub fn cert_size(&self) -> (r: u32)
        ensures
            r == self.spec_cert_size(),
    {
        self.cert_size
    }

    /// The size of the ticket.
    pub fn ticket_size(&self) -> (r: u32)
        ensures
            r == self.spec_ticket_size(),
    {
        self.ticket_size
    }

    /// The size of the title metadata.
    pub fn tmd_size(&self) -> (r: u32)
        ensures
            r == self.spec_tmd_size(),
    {
        self.tmd_size
    }

    /// The size of the meta region; zero where there is none.
    pub fn meta_size(&self) -> (r: u32)
        ensures
            r == self.spec_meta_size(),
    {
        self.meta_size
    }

    /// The size of all contents together.
    pub fn content_size(&self) -> (r: u64)
        ensures
            r == self.spec_content_size(),
    {
        self.content_size
    }

    /// The content index: one bit for every content that is present.
    pub fn content_index(&self) -> (r: &[u8])
        ensures
            r@ == self.spec_content_index(),
    {
        self.content_index.as_slice()
    }
}

/// A package, read over caller-owned bytes.
#[derive(Debug)]
pub struct Cia<'a> {
    header: CiaHeader,
    bytes: &'a [u8],
}

impl<'a> FromBytes<'a> for Cia<'a> {
    open spec fn spec_min_size() -> nat {
        CIA_HEADER_SIZE as nat
    }

    /// The header must declare its own exact size: the number that the
    /// first four bytes store little-endian. No later byte is looked at.
    open spec fn spec_bytes_ok(bytes: Seq<u8>) -> CytrynaResult<()> {
        if bytes.len() < 4 {
            Err(CytrynaError::SliceTooSmall)
        } else if u32_le_at(bytes, 0) != CIA_HEADER_SIZE {
            Err(CytrynaError::InvalidHeaderSize)
        } else {
            Ok(())
        }
    }

    open spec fn spec_hash_ok(bytes: Seq<u8>) -> bool {
        true
    }

    closed spec fn raw(&self) -> Seq<u8> {
        self.bytes@
    }

    open spec fn wf(&self) -> bool {
        &&& Self::spec_bytes_ok(self.raw()) is Ok
        &&& self.raw().len() >= CIA_HEADER_SIZE
        &&& self.spec_header().is_header_of(self.raw())
    }

    fn min_size() -> (r: usize) {
        CIA_HEADER_SIZE
    }

    fn bytes_ok(bytes: &[u8]) -> (r: CytrynaResult<()>) {
        if bytes.len() < 4 {
            return Err(CytrynaError::SliceTooSmall);
        }
        let hdr_size = read_u32_le(bytes, 0);
        if hdr_size != CIA_HEADER_SIZE as u32 {
            return Err(CytrynaError::InvalidHeaderSize);
        }
        Ok(())
    }

    fn cast(bytes: &'a [u8]) -> (r: Self) {
        assert(Self::spec_min_size() == 0x2020);
        let r = Cia { header: CiaHeader::read(bytes), bytes };
        assert(r.raw() == bytes@);
        r
    }

    fn hash_ok(&self) -> (r: bool) {
        true
    }
}

/// The regions of a package with the bytes `raw`: what follows the header
/// and its padding.
pub open spec fn spec_cia_data(raw: Seq<u8>) -> Seq<u8> {
    if raw.len() >= CIA_DATA_AT {
        raw.skip(CIA_DATA_AT as int)
    } else {
        Seq::empty()
    }
}

/// Whether the `len` bytes from `at` on lie inside `data`.
pub open spec fn region_fits(data: Seq<u8>, at: int, len: int) -> bool {
    at + len <= data.len()
}

/// What reading the region of `len` bytes at `at` as a signed envelope
/// around a `T` gives: the algorithm of the signature, or the reason why
/// the region is no such envelope.
pub open spec fn spec_signed_region<'a, T: FromBytes<'a>>(
    data: Seq<u8>,
    at: int,
    len: int,
) -> CytrynaResult<SignatureType> {
    if !region_fits(data, at, len) {
        Err(CytrynaError::SliceTooSmall)
    } else {
        spec_signed_data::<T>(data.subrange(at, at + len))
    }
}

impl<'a> Cia<'a> {
    /// The header.
    pub closed spec fn spec_header(&self) -> CiaHeader {
        self.header
    }

    /// The regions: what follows the header and its padding.
    pub open spec fn spec_data(&self) -> Seq<u8> {
        spec_cia_data(self.raw())
    }

    /// The header.
    #[must_use]
    pub fn header(&self) -> (r: &CiaHeader)
        ensures
            *r == self.spec_header(),
    {
        &self.header
    }

    /// Whether the header declares its own exact size, as the header of
    /// every package that has been read does.
    pub fn looks_ok(&self) -> (r: bool)
        ensures
            r == (self.spec_header().spec_hdr_size() == CIA_HEADER_SIZE),
            self.wf() ==> r,
    {
        self.header.hdr_size == CIA_HEADER_SIZE as u32
    }

    /// The regions: what follows the header and its padding.
    pub fn data(&self) -> (r: &'a [u8])
        ensures
            r@ == self.spec_data(),
    {
        if self.bytes.len() >= CIA_DATA_AT {
            let r = window(self.bytes, CIA_DATA_AT, self.bytes.len() - CIA_DATA_AT);
            assert(r@ =~= self.spec_data());
            r
        } else {
            let r = window(self.bytes, 0, 0);
            assert(r@ =~= self.spec_data());
            r
        }
    }

    /// The part of the regions that starts at `at` and is `len` bytes
    /// long, where it lies inside them.
    fn region(&self, at: u64, len: u64) -> (r: Option<&'a [u8]>)
        ensures
            match r {
                Some(bytes) => region_fits(self.spec_data(), at as int, len as int) && bytes@
                    == self.spec_data().subrange(at as int, at + len),
                None => !region_fits(self.spec_data(), at as int, len as int),
            },
    {
        let data = self.data();
        let total = data.len() as u64;
        if at > total || len > total - at {
            return None;
        }
        Some(window(data, at as usize, len as usize))
    }

    /// The certificate chain, as raw bytes.
    #[must_use]
    pub fn cert_chain_region(&self) -> (r: &'a [u8])
        requires
            self.wf(),
            region_fits(self.spec_data(), 0, spec_align(self.spec_header().spec_cert_size() as int)),
        ensures
            r@ == self.spec_data().subrange(
                0,
                spec_align(self.spec_header().spec_cert_size() as int),
            ),
    {
        let len = align64(self.header.cert_size as u64);
        match self.region(0, len.unwrap()) {
            Some(r) => r,
            None => vstd::pervasive::unreached(),
        }
    }

    /// The ticket: the signed envelope in the region that follows the
    /// certificate chain. A region that reaches beyond the package is
    /// refused with `SliceTooSmall`.
    pub fn ticket_region(&self) -> (r: CytrynaResult<Ticket<'a>>)
        requires
            self.wf(),
        ensures
            match r {
                Ok(ticket) => ticket.wf() && region_fits(
                    self.spec_data(),
                    self.spec_header().spec_ticket_at(),
                    spec_align(self.spec_header().spec_ticket_size() as int),
                ) && ticket.raw() == self.spec_data().subrange(
                    self.spec_header().spec_ticket_at(),
                    self.spec_header().spec_tmd_at(),
                ),
                Err(e) => spec_signed_region::<TicketInner<'a>>(
                    self.spec_data(),
                    self.spec_header().spec_ticket_at(),
                    spec_align(self.spec_header().spec_ticket_size() as int),
                ) == Err::<SignatureType, CytrynaError>(e),
            },
    {
        let at = align64(self.header.cert_size as u64).unwrap();
        let len = align64(self.header.ticket_size as u64).unwrap();
        match self.region(at, len) {
            Some(bytes) => SignedData::from_bytes(bytes),
            None => Err(CytrynaError::SliceTooSmall),
        }
    }

    /// The title metadata: the signed envelope in the region that follows
    /// the ticket. A region that reaches beyond the package is refused
    /// with `SliceTooSmall`.
    pub fn tmd_region(&self) -> (r: CytrynaResult<Tmd<'a>>)
        requires
            self.wf(),
        ensures
            match r {
                Ok(tmd) => tmd.wf() && region_fits(
                    self.spec_data(),
                    self.spec_header().spec_tmd_at(),
                    spec_align(self.spec_header().spec_tmd_size() as int),
                ) && tmd.raw() == self.spec_data().subrange(
                    self.spec_header().spec_tmd_at(),
                    self.spec_header().spec_content_at(),
                ),
                Err(e) => spec_signed_region::<TmdInner<'a>>(
                    self.spec_data(),
                    self.spec_header().spec_tmd_at(),
                    spec_align(self.spec_header().spec_tmd_size() as int),
                ) == Err::<SignatureType, CytrynaError>(e),
            },
    {
        let at = align64(self.header.cert_size as u64).unwrap() + align64(
            self.header.ticket_size as u64,
        ).unwrap();
        let len = align64(self.header.tmd_size as u64).unwrap();
        match self.region(at, len) {
            Some(bytes) => SignedData::from_bytes(bytes),
            None => Err(CytrynaError::SliceTooSmall),
        }
    }
}

/// The sum of the rounded sizes of the certificate chain, the ticket and
/// the title metadata, at which the contents start, is a multiple of 64,
/// and so is the place where the meta region starts, whatever the size of
/// the contents.
pub proof fn lemma_regions_are_aligned(cert: u32, ticket: u32, tmd: u32, content: u64)
    ensures
        spec_align(cert as int) % 0x40 == 0,
        (spec_align(cert as int) + spec_align(ticket as int)) % 0x40 == 0,
        (spec_align(cert as int) + spec_align(ticket as int) + spec_align(tmd as int)) % 0x40 == 0,
        (spec_align(cert as int) + spec_align(ticket as int) + spec_align(tmd as int) + spec_align(
            content as int,
        )) % 0x40 == 0,
{
    reveal(spec_align);
}

/// Every region of a package starts on a 64-byte boundary.
pub proof fn lemma_region_starts_are_aligned(header: CiaHeader)
    ensures
        header.spec_ticket_at() % 0x40 == 0,
        header.spec_tmd_at() % 0x40 == 0,
        header.spec_content_at() % 0x40 == 0,
        header.spec_meta_at() % 0x40 == 0,
{
    lemma_regions_are_aligned(
        header.spec_cert_size(),
        header.spec_ticket_size(),
        header.spec_tmd_size(),
        header.spec_content_size(),
    );
}


/// The bytes of one content with the part of the title that it is.
#[derive(Debug)]
pub struct ContentRegion<'a> {
    data: VecOrSlice<'a, u8>,
    idx: ContentIndex,
}

impl<'a> ContentRegion<'a> {
    /// The bytes of the content, decrypted where it was encrypted.
    pub closed spec fn spec_data(&self) -> Seq<u8> {
        self.data@
    }

    /// The part of the title that the content is.
    pub closed spec fn spec_idx(&self) -> ContentIndex {
        self.idx
    }

    /// Whether the bytes are the package's own, not a decrypted copy.
    pub closed spec fn is_borrowed(&self) -> bool {
        self.data is S
    }

    /// The bytes of the content.
    #[must_use]
    pub fn data(&self) -> (r: &[u8])
        ensures
            r@ == self.spec_data(),
    {
        self.data.as_slice()
    }

    /// The part of the title that the content is.
    #[must_use]
    pub fn idx(&self) -> (r: ContentIndex)
        ensures
            r == self.spec_idx(),
    {
        self.idx
    }
}

/// The initialization vector of a content: the number of its index in the
/// first byte, and zeros.
pub open spec fn spec_content_iv(idx: ContentIndex) -> Seq<u8> {
    Seq::new(16, |i: int| if i == 0 { idx.spec_code() } else { 0u8 })
}

/// The bytes of the content that `chunk` describes, where the contents
/// `buf` hold it from `offset` on: the bytes themselves for a content that
/// is not encrypted; for an encrypted one their plaintext under
/// AES-128-CBC with the title key, if they are whole blocks. `None` where
/// the content reaches beyond the contents or cannot be decrypted.
pub open spec fn spec_chunk_data(
    title_key: Seq<u8>,
    chunk: ContentChunk,
    buf: Seq<u8>,
    offset: int,
) -> Option<Seq<u8>> {
    if offset + chunk.spec_size() > buf.len() {
        None
    } else {
        let range = buf.subrange(offset, offset + chunk.spec_size());
        if chunk.spec_ty().spec_contains(ContentType::ENCRYPTED) {
            if chunk.spec_size() % 16 != 0 {
                None
            } else {
                Some(aes128_cbc_decrypted(title_key, spec_content_iv(chunk.spec_idx()), range))
            }
        } else {
            Some(range)
        }
    }
}

/// A content that is not encrypted is the same bytes however often and
/// with whatever title key it is read: the bytes that the contents hold
/// in its range.
pub proof fn lemma_plain_content_is_its_range(
    key_a: Seq<u8>,
    key_b: Seq<u8>,
    chunk: ContentChunk,
    buf: Seq<u8>,
    offset: int,
)
    requires
        !chunk.spec_ty().spec_contains(ContentType::ENCRYPTED),
        0 <= offset,
        offset + chunk.spec_size() <= buf.len(),
    ensures
        spec_chunk_data(key_a, chunk, buf, offset) == Some(
            buf.subrange(offset, offset + chunk.spec_size()),
        ),
        spec_chunk_data(key_a, chunk, buf, offset) == spec_chunk_data(key_b, chunk, buf, offset),
{
}

/// Walks the contents of a package chunk by chunk, decrypting those that
/// are encrypted.
#[derive(Debug)]
pub struct ContentRegionIter<'a> {
    tmd: Tmd<'a>,
    title_key: [u8; 0x10],
    buf: &'a [u8],
    offset: usize,
    chunk_idx: u16,
}

impl<'a> ContentRegionIter<'a> {
    /// The title metadata whose chunk table is walked.
    pub closed spec fn spec_tmd(&self) -> Tmd<'a> {
        self.tmd
    }

    /// The chunk table.
    pub open spec fn spec_chunks(&self) -> Seq<ContentChunk> {
        self.spec_tmd().payload().spec_chunks()
    }

    /// The title key.
    pub closed spec fn spec_title_key(&self) -> Seq<u8> {
        self.title_key@
    }

    /// The contents of the package.
    pub closed spec fn spec_buf(&self) -> Seq<u8> {
        self.buf@
    }

    /// Where the next content starts in the contents.
    pub closed spec fn spec_offset(&self) -> int {
        self.offset as int
    }

    /// The number of the next chunk.
    pub closed spec fn spec_chunk_idx(&self) -> int {
        self.chunk_idx as int
    }

    pub open spec fn wf(&self) -> bool {
        &&& self.spec_tmd().wf()
        &&& 0 <= self.spec_chunk_idx() <= self.spec_chunks().len()
        &&& 0 <= self.spec_offset() <= self.spec_buf().len()
    }

    /// The initialization vector of a content.
    fn content_iv(idx: ContentIndex) -> (r: [u8; 0x10])
        ensures
            r@ == spec_content_iv(idx),
    {
        let mut iv = [0u8; 0x10];
        iv[0] = idx.code();
        assert(iv@ =~= spec_content_iv(idx));
        iv
    }

    /// The next content: its bytes, borrowed from the package where the
    /// content is not encrypted and decrypted into a buffer of their own
    /// where it is, as many as the chunk declares, together with its index. The walk then stands after
    /// that content. `None`, with the walk where it stood, when the chunk
    /// table is exhausted, when the content reaches beyond the contents, or
    /// when an encrypted content is not a whole number of blocks.
    pub fn next(&mut self) -> (r: Option<ContentRegion<'a>>)
        requires
            old(self).wf(),
        ensures
            final(self).wf(),
            final(self).spec_tmd() == old(self).spec_tmd(),
            final(self).spec_title_key() == old(self).spec_title_key(),
            final(self).spec_buf() == old(self).spec_buf(),
            match r {
                Some(region) => {
                    let chunk = old(self).spec_chunks()[old(self).spec_chunk_idx()];
                    &&& old(self).spec_chunk_idx() < old(self).spec_chunks().len()
                    &&& spec_chunk_data(
                        old(self).spec_title_key(),
                        chunk,
                        old(self).spec_buf(),
                        old(self).spec_offset(),
                    ) == Some(region.spec_data())
                    &&& region.spec_data().len() == chunk.spec_size()
                    &&& region.spec_idx() == chunk.spec_idx()
                    &&& region.is_borrowed() == !chunk.spec_ty().spec_contains(
                        ContentType::ENCRYPTED,
                    )
                    &&& final(self).spec_chunk_idx() == old(self).spec_chunk_idx() + 1
                    &&& final(self).spec_offset() == old(self).spec_offset() + chunk.spec_size()
                },
                None => {
                    &&& final(self).spec_chunk_idx() == old(self).spec_chunk_idx()
                    &&& final(self).spec_offset() == old(self).spec_offset()
                    &&& (old(self).spec_chunk_idx() >= old(self).spec_chunks().len()
                        || spec_chunk_data(
                        old(self).spec_title_key(),
                        old(self).spec_chunks()[old(self).spec_chunk_idx()],
                        old(self).spec_buf(),
                        old(self).spec_offset(),
                    ) is None)
                },
            },
    {
        let chunks = self.tmd.content_chunks();
        if self.chunk_idx as usize >= chunks.len() {
            return None;
        }
        let chunk = chunks[self.chunk_idx as usize];
        let idx = chunk.idx();
        let size = chunk.size();
        if size > (self.buf.len() - self.offset) as u64 {
            return None;
        }
        let range = window(self.buf, self.offset, size as usize);
        let data;
        if chunk.ty().contains(ContentType::ENCRYPTED) {
            let iv = Self::content_iv(idx);
            match aes128_cbc_decrypt(&self.title_key, &iv, range) {
                Some(plain) => {
                    data = VecOrSlice::V(plain);
                },
                None => {
                    return None;
                },
            }
        } else {
            data = VecOrSlice::S(range);
        }
        self.chunk_idx = self.chunk_idx + 1;
        self.offset = self.offset + size as usize;
        Some(ContentRegion { data, idx })
    }
}

/// The meta region of a package, read over caller-owned bytes: the ids of
/// the titles that the title depends on, the core version, and the icon.
#[derive(Debug)]
pub struct MetaRegion<'a> {
    bytes: &'a [u8],
}

/// The number of title ids in the dependency list.
pub const DEPENDENCY_COUNT: usize = 0x30;

/// The ids of the first `n` entries of the dependency list in `bytes` that
/// are title ids, in their order: an entry whose highest sixteen bits stand
/// for no platform is no title id and is passed over.
pub open spec fn spec_dependency_ids(bytes: Seq<u8>, n: int) -> Seq<u64>
    decreases n,
{
    if n <= 0 {
        Seq::empty()
    } else {
        let raw = u64_le_at(bytes, 8 * (n - 1));
        let before = spec_dependency_ids(bytes, n - 1);
        if Platform::spec_from_code((raw / 0x1_0000_0000_0000) as u16) is Some {
            before.push(raw)
        } else {
            before
        }
    }
}

impl<'a> MetaRegion<'a> {
    /// The bytes of the region.
    pub closed spec fn raw(&self) -> Seq<u8> {
        self.bytes@
    }

    pub open spec fn wf(&self) -> bool {
        self.raw().len() == META_REGION_SIZE
    }

    /// Reads `bytes` as a meta region, where they have its exact length.
    pub fn from_bytes(bytes: &'a [u8]) -> (r: CytrynaResult<MetaRegion<'a>>)
        ensures
            match r {
                Ok(meta) => bytes@.len() == META_REGION_SIZE && meta.wf() && meta.raw() == bytes@,
                Err(e) => bytes@.len() != META_REGION_SIZE && e == (CytrynaError::InvalidLength {
                    what: "meta region",
                    actual: bytes.len(),
                    expected: META_REGION_SIZE,
                }),
            },
    {
        if bytes.len() != META_REGION_SIZE {
            return Err(
                CytrynaError::InvalidLength {
                    what: "meta region",
                    actual: bytes.len(),
                    expected: META_REGION_SIZE,
                },
            );
        }
        Ok(MetaRegion { bytes })
    }

    /// The dependency list: 0x30 numbers, little-endian, each of which may
    /// be a title id.
    #[must_use]
    pub fn dependencies(&self) -> (r: [MaybeTitleId; 0x30])
        requires
            self.wf(),
        ensures
            forall|i: int| 0 <= i < 0x30 ==> (#[trigger] r@[i]).raw == u64_le_at(self.raw(), 8 * i),
    {
        let mut out = [MaybeTitleId { raw: 0 };0x30];
        let mut i: usize = 0;
        while i < DEPENDENCY_COUNT
            invariant
                i <= DEPENDENCY_COUNT,
                self.wf(),
                forall|k: int| 0 <= k < i ==> (#[trigger] out@[k]).raw == u64_le_at(self.raw(), 8 * k),
            decreases DEPENDENCY_COUNT - i,
        {
            out[i] = MaybeTitleId { raw: read_u64_le(self.bytes, 8 * i) };
            i = i + 1;
        }
        out
    }

    /// The title ids of the dependency list, in their order; entries that
    /// are no title ids are left out.
    pub fn dependencies_iter(&self) -> (r: Vec<TitleId>)
        requires
            self.wf(),
        ensures
            r@.len() == spec_dependency_ids(self.raw(), 0x30).len(),
            forall|i: int|
                0 <= i < r@.len() ==> (#[trigger] r@[i]).spec_to_u64() == spec_dependency_ids(
                    self.raw(),
                    0x30,
                )[i],
    {
        let mut out: Vec<TitleId> = Vec::new();
        let mut i: usize = 0;
        while i < DEPENDENCY_COUNT
            invariant
                i <= DEPENDENCY_COUNT,
                self.wf(),
                out@.len() == spec_dependency_ids(self.raw(), i as int).len(),
                forall|k: int|
                    0 <= k < out@.len() ==> (#[trigger] out@[k]).spec_to_u64()
                        == spec_dependency_ids(self.raw(), i as int)[k],
            decreases DEPENDENCY_COUNT - i,
        {
            let entry = MaybeTitleId { raw: read_u64_le(self.bytes, 8 * i) };
            match entry.to_titleid() {
                Ok(title) => {
                    out.push(title);
                },
                Err(_) => {},
            }
            i = i + 1;
        }
        out
    }

    /// The core version: little-endian at 0x300.
    pub fn core_version(&self) -> (r: u32)
        requires
            self.wf(),
        ensures
            r == u32_le_at(self.raw(), 0x300),
    {
        read_u32_le(self.bytes, 0x300)
    }

    /// The icon and title data of the region, read from its last 0x36c0
    /// bytes; they must start with the magic of such data.
    pub fn icon(&self) -> (r: CytrynaResult<Smdh<'a>>)
        requires
            self.wf(),
        ensures
            match r {
                Ok(smdh) => smdh.wf() && smdh.raw() == self.raw().subrange(0x400, 0x3ac0),
                Err(e) => Smdh::spec_bytes_ok(self.raw().subrange(0x400, 0x3ac0)) == Err::<
                    (),
                    CytrynaError,
                >(e),
            },
    {
        Smdh::from_bytes(self.icon_bytes())
    }

    /// The bytes of the icon: the last 0x36c0 bytes of the region.
    pub fn icon_bytes(&self) -> (r: &'a [u8])
        requires
            self.wf(),
        ensures
            r@ == self.raw().subrange(0x400, 0x3ac0),
    {
        window(self.bytes, 0x400, 0x36c0)
    }
}

/// What `content_region` gives for a package with the header `header` and
/// the regions `data`, with the keys published to a place: nothing where
/// the walk can begin, and else the reason why it cannot. The ticket is
/// read first and its title key unwrapped, then the title metadata is
/// read, and last the contents are marked out.
pub open spec fn spec_content_region<'a>(
    published: Option<KeyBag>,
    header: CiaHeader,
    data: Seq<u8>,
) -> CytrynaResult<()> {
    let ticket_len = spec_align(header.spec_ticket_size() as int);
    let ticket = spec_signed_region::<TicketInner<'a>>(data, header.spec_ticket_at(), ticket_len);
    match ticket {
        Err(e) => Err(e),
        Ok(ty) => {
            let payload = data.subrange(header.spec_ticket_at(), header.spec_tmd_at()).skip(
                ty.spec_payload_offset(),
            );
            match spec_title_key(published, payload) {
                Err(e) => Err(e),
                Ok(_) => {
                    let tmd = spec_signed_region::<TmdInner<'a>>(
                        data,
                        header.spec_tmd_at(),
                        spec_align(header.spec_tmd_size() as int),
                    );
                    match tmd {
                        Err(e) => Err(e),
                        Ok(_) => if region_fits(
                            data,
                            header.spec_content_at(),
                            spec_align(header.spec_content_size() as int),
                        ) {
                            Ok(())
                        } else {
                            Err(CytrynaError::SliceTooSmall)
                        },
                    }
                },
            }
        },
    }
}

impl<'a> Cia<'a> {
    /// Where the contents start among the regions.
    fn content_at(&self) -> (r: u64)
        ensures
            r == self.spec_header().spec_content_at(),
            r <= 0x3_0000_0000,
    {
        align64(self.header.cert_size as u64).unwrap() + align64(
            self.header.ticket_size as u64,
        ).unwrap() + align64(self.header.tmd_size as u64).unwrap()
    }

    /// The contents of the package, where they lie inside it.
    fn content_bytes(&self) -> (r: Option<&'a [u8]>)
        ensures
            match r {
                Some(buf) => region_fits(
                    self.spec_data(),
                    self.spec_header().spec_content_at(),
                    spec_align(self.spec_header().spec_content_size() as int),
                ) && buf@ == self.spec_data().subrange(
                    self.spec_header().spec_content_at(),
                    self.spec_header().spec_meta_at(),
                ),
                None => !region_fits(
                    self.spec_data(),
                    self.spec_header().spec_content_at(),
                    spec_align(self.spec_header().spec_content_size() as int),
                ),
            },
    {
        let at = self.content_at();
        let total = self.data().len();
        proof {
            lemma_align_bounds(self.spec_header().spec_content_size() as int);
        }
        let len = match align64(self.header.content_size) {
            Some(len) => len,
            None => {
                return None;
            },
        };
        self.region(at, len)
    }

    /// The walk over the contents, standing before the first chunk, with
    /// the title key of the package's ticket and the chunk table of its
    /// title metadata.
    pub fn content_region(&self, global: &GlobalKeyBag) -> (r: CytrynaResult<ContentRegionIter<'a>>)
        requires
            self.wf(),
        ensures
            match r {
                Ok(iter) => {
                    &&& spec_content_region(
                        global.published(),
                        self.spec_header(),
                        self.spec_data(),
                    ) is Ok
                    &&& iter.wf()
                    &&& iter.spec_chunk_idx() == 0
                    &&& iter.spec_offset() == 0
                    &&& iter.spec_buf() == self.spec_data().subrange(
                        self.spec_header().spec_content_at(),
                        self.spec_header().spec_meta_at(),
                    )
                    &&& iter.spec_tmd().raw() == self.spec_data().subrange(
                        self.spec_header().spec_tmd_at(),
                        self.spec_header().spec_content_at(),
                    )
                    &&& spec_title_key(
                        global.published(),
                        self.spec_data().subrange(
                            self.spec_header().spec_ticket_at(),
                            self.spec_header().spec_tmd_at(),
                        ).skip(
                            spec_signed_data::<TicketInner<'a>>(
                                self.spec_data().subrange(
                                    self.spec_header().spec_ticket_at(),
                                    self.spec_header().spec_tmd_at(),
                                ),
                            )->Ok_0.spec_payload_offset(),
                        ),
                    ) == Ok::<Seq<u8>, CytrynaError>(iter.spec_title_key())
                },
                Err(e) => spec_content_region(
                    global.published(),
                    self.spec_header(),
                    self.spec_data(),
                ) == Err::<(), CytrynaError>(e),
            },
    {
        let ticket = match self.ticket_region() {
            Ok(t) => t,
            Err(e) => {
                return Err(e);
            },
        };
        let title_key = match ticket.title_key(global) {
            Ok(k) => k,
            Err(e) => {
                return Err(e);
            },
        };
        let tmd = match self.tmd_region() {
            Ok(t) => t,
            Err(e) => {
                return Err(e);
            },
        };
        let buf = match self.content_bytes() {
            Some(buf) => buf,
            None => {
                return Err(CytrynaError::SliceTooSmall);
            },
        };
        Ok(ContentRegionIter { tmd, title_key, buf, offset: 0, chunk_idx: 0 })
    }

    /// Whether the meta region can be read: the header declares either no
    /// meta region or one of the exact length, which lies inside the
    /// package.
    pub open spec fn meta_region_ok(&self) -> bool {
        self.spec_header().spec_meta_size() != 0 ==> {
            &&& self.spec_header().spec_meta_size() == META_REGION_SIZE
            &&& region_fits(
                self.spec_data(),
                self.spec_header().spec_meta_at(),
                META_REGION_SIZE as int,
            )
        }
    }

    /// The meta region, where the header declares one.
    #[must_use]
    pub fn meta_region(&self) -> (r: Option<MetaRegion<'a>>)
        requires
            self.wf(),
            self.meta_region_ok(),
        ensures
            match r {
                Some(meta) => self.spec_header().spec_meta_size() != 0 && meta.wf() && meta.raw()
                    == self.spec_data().subrange(
                    self.spec_header().spec_meta_at(),
                    self.spec_header().spec_meta_at() + META_REGION_SIZE,
                ),
                None => self.spec_header().spec_meta_size() == 0,
            },
    {
        if self.header.meta_size != 0 {
            let before = self.content_at();
            let total = self.data().len();
            proof {
                lemma_align_bounds(self.spec_header().spec_content_size() as int);
            }
            let content = align64(self.header.content_size).unwrap();
            let at = before + content;
            match self.region(at, META_REGION_SIZE as u64) {
                Some(bytes) => Some(MetaRegion { bytes }),
                None => vstd::pervasive::unreached(),
            }
        } else {
            None
        }
    }
}

} // verus!
