//! The mini filesystem of an executable container: a table of eight file
//! headers, and after it the data of the files.

use vstd::prelude::*;
use crate::bytes::{read_array, read_u32_le, same_bytes, u32_le_at, window};
use crate::error::{CytrynaError, CytrynaResult};
use crate::string::SizedCString;
use crate::VecOrSlice;

verus! {

/// The length of the header of the filesystem.
pub const EXEFS_HEADER_SIZE: usize = 0x200;

/// The number of file headers in the table.
pub const EXEFS_FILE_COUNT: usize = 8;

/// The width of a file's name.
pub const EXEFS_NAME_SIZE: usize = 8;

/// One entry of the file table.
#[derive(Clone, Copy, Debug)]
pub struct FileHeader {
    name: SizedCString<8>,
    offset: u32,
    size: u32,
}

impl FileHeader {
    /// The name of the file, padded with zeros.
    pub closed spec fn spec_name(&self) -> Seq<u8> {
        self.name@
    }

    /// Where the data of the file starts, counted from the end of the
    /// header of the filesystem.
    pub closed spec fn spec_offset(&self) -> u32 {
        self.offset
    }

    /// The length of the file.
    pub closed spec fn spec_size(&self) -> u32 {
        self.size
    }

    /// Whether the entry is what the sixteen bytes at `at` say: the name,
    /// then the offset and the size little-endian.
    pub open spec fn is_record(&self, bytes: Seq<u8>, at: int) -> bool {
        &&& self.spec_name() == bytes.subrange(at, at + 8)
        &&& self.spec_offset() == u32_le_at(bytes, at + 8)
        &&& self.spec_size() == u32_le_at(bytes, at + 0xc)
    }

    /// Whether the entry stands for no file: its name is all zeros, and so
    /// are its offset and its size.
    pub open spec fn spec_is_unused(&self) -> bool {
        &&& forall|k: int| 0 <= k < self.spec_name().len() ==> self.spec_name()[k] == 0
        &&& self.spec_offset() == 0
        &&& self.spec_size() == 0
    }

    /// Reads the entry at `at`.
    fn read(bytes: &[u8], at: usize) -> (r: FileHeader)
        requires
            at + 0x10 <= bytes.len(),
        ensures
            r.is_record(bytes@, at as int),
    {
        FileHeader {
            name: SizedCString(read_array::<8>(bytes, at)),
            offset: read_u32_le(bytes, at + 8),
            size: read_u32_le(bytes, at + 0xc),
        }
    }

    /// The name of the file, padded with zeros.
    pub fn name(&self) -> (r: &SizedCString<8>)
        ensures
            r@ == self.spec_name(),
    {
        &self.name
    }

    /// Where the data of the file starts.
    pub fn offset(&self) -> (r: u32)
        ensures
            r == self.spec_offset(),
    {
        self.offset
    }

    /// The length of the file.
    pub fn size(&self) -> (r: u32)
        ensures
            r == self.spec_size(),
    {
        self.size
    }

    /// Whether the entry stands for no file.
    #[must_use]
    pub fn is_unused(&self) -> (r: bool)
        ensures
            r == self.spec_is_unused(),
    {
        let zero = self.name.is_zero();
        assert(self.spec_name() == self.name@);
        zero && self.offset == 0 && self.size == 0
    }
}

/// The header of the filesystem: the file table and the hashes of the
/// files.
#[derive(Clone, Copy, Debug)]
pub struct ExeFsHeader {
    file_headers: [FileHeader; 8],
    file_hashes: [[u8; 32]; 8],
}

/// `name` followed by as many zeros as fill the width of a file's name.
pub open spec fn spec_padded_name(name: Seq<u8>) -> Seq<u8> {
    Seq::new(8, |i: int| if i < name.len() { name[i] } else { 0u8 })
}

/// Whether the entry `hdr` is the file called `name`: it stands for a file,
/// and its name is `name` padded with zeros.
pub open spec fn is_file_named(hdr: FileHeader, name: Seq<u8>) -> bool {
    !hdr.spec_is_unused() && hdr.spec_name() == spec_padded_name(name)
}

/// The position of the first of the first `n` entries that is the file
/// called `name`, or `n` where none is.
pub open spec fn spec_find_file(headers: Seq<FileHeader>, name: Seq<u8>, n: int) -> int
    decreases n,
{
    if n <= 0 {
        0
    } else {
        let before = spec_find_file(headers, name, n - 1);
        if before < n - 1 {
            before
        } else if is_file_named(headers[n - 1], name) {
            n - 1
        } else {
            n
        }
    }
}

/// The first `n` entries that stand for files, in their order.
pub open spec fn spec_used(headers: Seq<FileHeader>, n: int) -> Seq<FileHeader>
    decreases n,
{
    if n <= 0 {
        Seq::empty()
    } else if headers[n - 1].spec_is_unused() {
        spec_used(headers, n - 1)
    } else {
        spec_used(headers, n - 1).push(headers[n - 1])
    }
}

/// What the search for a file finds is the first entry that is the file:
/// no entry before it is, and where the search finds nothing no entry is.
pub proof fn lemma_find_file_is_first(headers: Seq<FileHeader>, name: Seq<u8>, n: int)
    requires
        0 <= n <= headers.len(),
    ensures
        0 <= spec_find_file(headers, name, n) <= n,
        spec_find_file(headers, name, n) < n ==> is_file_named(
            headers[spec_find_file(headers, name, n)],
            name,
        ),
        forall|k: int| 0 <= k < spec_find_file(headers, name, n) ==> !is_file_named(headers[k], name),
    decreases n,
{
    if n > 0 {
        lemma_find_file_is_first(headers, name, n - 1);
    }
}

impl ExeFsHeader {
    /// The file table.
    pub closed spec fn spec_file_headers(&self) -> Seq<FileHeader> {
        self.file_headers@
    }

    /// The hash of file `i`.
    pub closed spec fn spec_file_hash(&self, i: int) -> Seq<u8> {
        self.file_hashes@[i]@
    }

    /// Whether the header is what the first 0x200 bytes of `bytes` say:
    /// eight file headers of sixteen bytes, 0x80 reserved bytes, and eight
    /// hashes of 32 bytes.
    pub open spec fn is_header_of(&self, bytes: Seq<u8>) -> bool {
        &&& self.spec_file_headers().len() == 8
        &&& forall|i: int|
            0 <= i < 8 ==> (#[trigger] self.spec_file_headers()[i]).is_record(bytes, 0x10 * i)
        &&& forall|i: int|
            0 <= i < 8 ==> #[trigger] self.spec_file_hash(i) == bytes.subrange(
                0x100 + 0x20 * i,
                0x120 + 0x20 * i,
            )
    }

    /// Reads the header.
    pub(crate) fn read(bytes: &[u8]) -> (r: ExeFsHeader)
        requires
            bytes.len() >= EXEFS_HEADER_SIZE,
        ensures
            r.is_header_of(bytes@),
    {
        let mut file_headers = [FileHeader { name: SizedCString([0u8;8]), offset: 0, size: 0 };8];
        let mut file_hashes = [[0u8;32];8];
        let mut i: usize = 0;
        while i < EXEFS_FILE_COUNT
            invariant
                i <= EXEFS_FILE_COUNT,
                bytes.len() >= EXEFS_HEADER_SIZE,
                forall|k: int| 0 <= k < i ==> (#[trigger] file_headers@[k]).is_record(bytes@, 0x10 * k),
                forall|k: int|
                    0 <= k < i ==> (#[trigger] file_hashes@[k])@ == bytes@.subrange(
                        0x100 + 0x20 * k,
                        0x120 + 0x20 * k,
                    ),
            decreases EXEFS_FILE_COUNT - i,
        {
            file_headers[i] = FileHeader::read(bytes, 0x10 * i);
            file_hashes[i] = read_array::<32>(bytes, 0x100 + 0x20 * i);
            i = i + 1;
        }
        ExeFsHeader { file_headers, file_hashes }
    }

    /// The file table.
    pub fn file_headers(&self) -> (r: &[FileHeader; 8])
        ensures
            r@ == self.spec_file_headers(),
    {
        &self.file_headers
    }

    /// The SHA-256 hash stored for file `i`.
    pub fn file_hash(&self, i: usize) -> (r: &[u8; 32])
        requires
            i < 8,
        ensures
            r@ == self.spec_file_hash(i as int),
    {
        &self.file_hashes[i]
    }

    /// The entries of the table that stand for files, in their order.
    pub fn file_headers_used(&self) -> (r: Vec<&FileHeader>)
        ensures
            r@.len() == spec_used(self.spec_file_headers(), 8).len(),
            forall|i: int|
                0 <= i < r@.len() ==> *(#[trigger] r@[i]) == spec_used(self.spec_file_headers(), 8)[i],
    {
        let mut out: Vec<&FileHeader> = Vec::new();
        let mut i: usize = 0;
        while i < EXEFS_FILE_COUNT
            invariant
                i <= EXEFS_FILE_COUNT,
                self.spec_file_headers().len() == 8,
                out@.len() == spec_used(self.spec_file_headers(), i as int).len(),
                forall|k: int|
                    0 <= k < out@.len() ==> *(#[trigger] out@[k]) == spec_used(
                        self.spec_file_headers(),
                        i as int,
                    )[k],
            decreases EXEFS_FILE_COUNT - i,
        {
            let hdr = &self.file_headers[i];
            if !hdr.is_unused() {
                out.push(hdr);
            }
            i = i + 1;
        }
        out
    }

    /// The first entry of the table that stands for a file and has the name
    /// `name`, padded with zeros to the width of a name. A name that is
    /// longer than that width is the name of no file.
    #[must_use]
    pub fn file_header_by_name<'b>(&'b self, name: &[u8]) -> (r: Option<&'b FileHeader>)
        ensures
            match r {
                Some(hdr) => {
                    &&& name@.len() <= 8
                    &&& spec_find_file(self.spec_file_headers(), name@, 8) < 8
                    &&& *hdr == self.spec_file_headers()[spec_find_file(
                        self.spec_file_headers(),
                        name@,
                        8,
                    )]
                    &&& is_file_named(*hdr, name@)
                },
                None => name@.len() > 8 || spec_find_file(self.spec_file_headers(), name@, 8) == 8,
            },
            forall|k: int|
                0 <= k < spec_find_file(self.spec_file_headers(), name@, 8) ==> !is_file_named(
                    #[trigger] self.spec_file_headers()[k],
                    name@,
                ),
    {
        if name.len() > EXEFS_NAME_SIZE {
            proof {
                lemma_find_file_is_first(self.spec_file_headers(), name@, 8);
            }
            return None;
        }
        let mut padded = [0u8; 8];
        let mut k: usize = 0;
        while k < name.len()
            invariant
                k <= name.len() <= 8,
                forall|j: int| 0 <= j < k ==> padded@[j] == name@[j],
                forall|j: int| k <= j < 8 ==> padded@[j] == 0,
            decreases name.len() - k,
        {
            padded[k] = name[k];
            k = k + 1;
        }
        assert(padded@ =~= spec_padded_name(name@));
        let mut i: usize = 0;
        while i < EXEFS_FILE_COUNT
            invariant
                i <= EXEFS_FILE_COUNT,
                self.spec_file_headers().len() == 8,
                name@.len() <= 8,
                padded@ == spec_padded_name(name@),
                spec_find_file(self.spec_file_headers(), name@, i as int) == i,
            decreases EXEFS_FILE_COUNT - i,
        {
            let hdr = &self.file_headers[i];
            if !hdr.is_unused() && same_bytes(hdr.name.data(), padded.as_slice()) {
                proof {
                    assert(*hdr == self.spec_file_headers()[i as int]);
                    assert(is_file_named(self.spec_file_headers()[i as int], name@));
                    assert(spec_find_file(self.spec_file_headers(), name@, i as int + 1) == i);
                    lemma_find_file_stays(self.spec_file_headers(), name@, i as int + 1, 8);
                    lemma_find_file_is_first(self.spec_file_headers(), name@, 8);
                }
                return Some(hdr);
            }
            i = i + 1;
        }
        proof {
            lemma_find_file_is_first(self.spec_file_headers(), name@, 8);
        }
        None
    }
}

/// Once the search has found a file among the first `n` entries, it finds
/// the same one among any more.
proof fn lemma_find_file_stays(headers: Seq<FileHeader>, name: Seq<u8>, n: int, m: int)
    requires
        0 <= n <= m,
        spec_find_file(headers, name, n) < n,
    ensures
        spec_find_file(headers, name, m) == spec_find_file(headers, name, n),
    decreases m - n,
{
    if n < m {
        lemma_find_file_stays(headers, name, n, m - 1);
    }
}

/// The filesystem as its bytes hold it: the header, and the data after it.
#[derive(Debug)]
pub struct ExeFsInner<'a> {
    header: ExeFsHeader,
    data: &'a [u8],
}

/// Whether the data of the file `hdr` lies inside `data`.
pub open spec fn file_fits(hdr: FileHeader, data: Seq<u8>) -> bool {
    hdr.spec_offset() + hdr.spec_size() <= data.len()
}

/// The data of the file `hdr`.
pub open spec fn spec_file_data(hdr: FileHeader, data: Seq<u8>) -> Seq<u8> {
    data.subrange(hdr.spec_offset() as int, hdr.spec_offset() + hdr.spec_size())
}

impl<'a> ExeFsInner<'a> {
    /// The header.
    pub closed spec fn spec_header(&self) -> ExeFsHeader {
        self.header
    }

    /// The data of the files: what follows the header.
    pub closed spec fn spec_data(&self) -> Seq<u8> {
        self.data@
    }

    /// Whether the value is a reading of `bytes`.
    pub open spec fn is_reading_of(&self, bytes: Seq<u8>) -> bool {
        &&& bytes.len() >= EXEFS_HEADER_SIZE
        &&& self.spec_header().is_header_of(bytes)
        &&& self.spec_data() == bytes.skip(EXEFS_HEADER_SIZE as int)
    }

    /// Reads `bytes` as a filesystem; they must hold a whole header.
    pub fn from_bytes(bytes: &'a [u8]) -> (r: CytrynaResult<ExeFsInner<'a>>)
        ensures
            match r {
                Ok(fs) => fs.is_reading_of(bytes@),
                Err(e) => bytes@.len() < EXEFS_HEADER_SIZE && e == CytrynaError::SliceTooSmall,
            },
    {
        if bytes.len() < EXEFS_HEADER_SIZE {
            return Err(CytrynaError::SliceTooSmall);
        }
        let data = window(bytes, EXEFS_HEADER_SIZE, bytes.len() - EXEFS_HEADER_SIZE);
        assert(data@ =~= bytes@.skip(EXEFS_HEADER_SIZE as int));
        Ok(ExeFsInner { header: ExeFsHeader::read(bytes), data })
    }

    /// The header.
    pub fn header(&self) -> (r: &ExeFsHeader)
        ensures
            *r == self.spec_header(),
    {
        &self.header
    }

    /// The data of the file that `hdr` stands for.
    #[must_use]
    pub fn file_by_header(&self, hdr: &FileHeader) -> (r: &'a [u8])
        requires
            file_fits(*hdr, self.spec_data()),
        ensures
            r@ == spec_file_data(*hdr, self.spec_data()),
    {
        window(self.data, hdr.offset as usize, hdr.size as usize)
    }

    /// The data of the file that `hdr` stands for, where it lies inside
    /// the filesystem.
    pub fn try_file_by_header(&self, hdr: &FileHeader) -> (r: Option<&'a [u8]>)
        ensures
            match r {
                Some(data) => file_fits(*hdr, self.spec_data()) && data@ == spec_file_data(
                    *hdr,
                    self.spec_data(),
                ),
                None => !file_fits(*hdr, self.spec_data()),
            },
    {
        let total = self.data.len() as u64;
        if hdr.offset as u64 + hdr.size as u64 > total {
            None
        } else {
            Some(self.file_by_header(hdr))
        }
    }
}

/// The filesystem of an executable container, with what the container
/// says of it: whether its code is compressed, and whether it is
/// encrypted.
#[derive(Debug)]
pub struct ExeFs<'a> {
    pub(crate) compressed: bool,
    pub(crate) encrypted: bool,
    pub(crate) inner: ExeFsInner<'a>,
}

/// The name of the file that holds the code.
pub open spec fn spec_code_name() -> Seq<u8> {
    seq!['.' as u8, 'c' as u8, 'o' as u8, 'd' as u8, 'e' as u8]
}

/// What looking up the file called `name` gives in a filesystem with the
/// file table `headers` and the data `data`: no file where the name is too
/// long or no entry has it; the data of the first entry that has it; and
/// an error where that data reaches beyond the filesystem, or where the
/// file is the code of a filesystem whose code is compressed, which cannot
/// be unpacked.
pub open spec fn spec_file_by_name(
    compressed: bool,
    headers: Seq<FileHeader>,
    data: Seq<u8>,
    name: Seq<u8>,
) -> CytrynaResult<Option<Seq<u8>>> {
    if name.len() > 8 || spec_find_file(headers, name, 8) >= 8 {
        Ok(None)
    } else {
        let hdr = headers[spec_find_file(headers, name, 8)];
        if !file_fits(hdr, data) {
            Err(CytrynaError::SliceTooSmall)
        } else if compressed && name == spec_code_name() {
            Err(CytrynaError::NotImplemented("exefs decompression"))
        } else {
            Ok(Some(spec_file_data(hdr, data)))
        }
    }
}

impl<'a> ExeFs<'a> {
    /// Whether the code of the filesystem is compressed.
    pub closed spec fn spec_compressed(&self) -> bool {
        self.compressed
    }

    /// Whether the container of the filesystem is encrypted.
    pub closed spec fn spec_encrypted(&self) -> bool {
        self.encrypted
    }

    /// The filesystem as its bytes hold it.
    pub closed spec fn spec_inner(&self) -> ExeFsInner<'a> {
        self.inner
    }

    /// The filesystem read from `bytes`, with what its container says of
    /// it.
    pub fn new(compressed: bool, encrypted: bool, bytes: &'a [u8]) -> (r: CytrynaResult<ExeFs<'a>>)
        ensures
            match r {
                Ok(fs) => fs.spec_inner().is_reading_of(bytes@) && fs.spec_compressed() == compressed
                    && fs.spec_encrypted() == encrypted,
                Err(e) => bytes@.len() < EXEFS_HEADER_SIZE && e == CytrynaError::SliceTooSmall,
            },
    {
        match ExeFsInner::from_bytes(bytes) {
            Ok(inner) => Ok(ExeFs { compressed, encrypted, inner }),
            Err(e) => Err(e),
        }
    }

    /// Whether the code of the filesystem is compressed.
    pub fn is_compressed(&self) -> (r: bool)
        ensures
            r == self.spec_compressed(),
    {
        self.compressed
    }

    /// Whether the container of the filesystem is encrypted.
    pub fn is_encrypted(&self) -> (r: bool)
        ensures
            r == self.spec_encrypted(),
    {
        self.encrypted
    }

    /// The filesystem as its bytes hold it.
    pub fn inner(&self) -> (r: &ExeFsInner<'a>)
        ensures
            *r == self.spec_inner(),
    {
        &self.inner
    }

    /// The data of the file that `hdr` stands for.
    #[must_use]
    pub fn file_by_header(&self, hdr: &FileHeader) -> (r: &'a [u8])
        requires
            file_fits(*hdr, self.spec_inner().spec_data()),
        ensures
            r@ == spec_file_data(*hdr, self.spec_inner().spec_data()),
    {
        self.inner.file_by_header(hdr)
    }

    /// The data of the file called `name`, borrowed from the filesystem.
    pub fn file_by_name(&self, name: &[u8]) -> (r: CytrynaResult<Option<VecOrSlice<'a, u8>>>)
        ensures
            match r {
                Ok(Some(file)) => file is S && spec_file_by_name(
                    self.spec_compressed(),
                    self.spec_inner().spec_header().spec_file_headers(),
                    self.spec_inner().spec_data(),
                    name@,
                ) == Ok::<Option<Seq<u8>>, CytrynaError>(Some(file@)),
                Ok(None) => spec_file_by_name(
                    self.spec_compressed(),
                    self.spec_inner().spec_header().spec_file_headers(),
                    self.spec_inner().spec_data(),
                    name@,
                ) == Ok::<Option<Seq<u8>>, CytrynaError>(None),
                Err(e) => spec_file_by_name(
                    self.spec_compressed(),
                    self.spec_inner().spec_header().spec_file_headers(),
                    self.spec_inner().spec_data(),
                    name@,
                ) == Err::<Option<Seq<u8>>, CytrynaError>(e),
            },
    {
        let header = match self.inner.header.file_header_by_name(name) {
            Some(hdr) => hdr,
            None => {
                return Ok(None);
            },
        };
        let file = match self.inner.try_file_by_header(header) {
            Some(file) => file,
            None => {
                return Err(CytrynaError::SliceTooSmall);
            },
        };
        let code: [u8; 5] = ['.' as u8, 'c' as u8, 'o' as u8, 'd' as u8, 'e' as u8];
        assert(code@ =~= spec_code_name());
        if self.compressed && same_bytes(name, code.as_slice()) {
            Err(CytrynaError::NotImplemented("exefs decompression"))
        } else {
            Ok(Some(VecOrSlice::S(file)))
        }
    }
}

} // verus!
