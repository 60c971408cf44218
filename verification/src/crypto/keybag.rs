//! The key store: 128-bit keys under key identifiers, built key by key
//! or read from a list of `name=hexvalue` lines, and published once.

use vstd::prelude::*;
use vstd::string::StringSliceAdditionalSpecFns;
use std::collections::HashMap;
use crate::bytes::{read_array, window};
use crate::crypto::keyindex::{
    after, hex_digit, spec_parse_name, KeyIndex, KeyIndexParseError, KeyNameFault, KeyType,
};
use crate::error::{CytrynaError, CytrynaResult};
use crate::string::{string_from_utf8_lossy, utf8_lossy};

verus! {

/// The number under which the key store files a key identifier. Different
/// identifiers have different numbers.
pub closed spec fn key_code(idx: KeyIndex) -> u32 {
    match idx {
        KeyIndex::Generator => 0u32,
        KeyIndex::Slot(num, KeyType::X) => (0x1_0000 + num * 4) as u32,
        KeyIndex::Slot(num, KeyType::Y) => (0x1_0000 + num * 4 + 1) as u32,
        KeyIndex::Slot(num, KeyType::N) => (0x1_0000 + num * 4 + 2) as u32,
        KeyIndex::Common(num) => (0x2_0000 + num) as u32,
        KeyIndex::CommonN(num) => (0x3_0000 + num) as u32,
    }
}

/// Two identifiers filed under one number are one identifier.
proof fn lemma_key_code_injective(a: KeyIndex, b: KeyIndex)
    requires
        key_code(a) == key_code(b),
    ensures
        a == b,
{
}

/// The number under which the key store files `idx`.
fn code_of(idx: KeyIndex) -> (r: u32)
    ensures
        r == key_code(idx),
{
    match idx {
        KeyIndex::Generator => 0u32,
        KeyIndex::Slot(num, KeyType::X) => 0x1_0000u32 + (num as u32) * 4,
        KeyIndex::Slot(num, KeyType::Y) => 0x1_0000u32 + (num as u32) * 4 + 1,
        KeyIndex::Slot(num, KeyType::N) => 0x1_0000u32 + (num as u32) * 4 + 2,
        KeyIndex::Common(num) => 0x2_0000u32 + (num as u32),
        KeyIndex::CommonN(num) => 0x3_0000u32 + (num as u32),
    }
}

/// The key store: 128-bit keys, each under one key identifier.
#[derive(Debug)]
pub struct KeyBag {
    keys: HashMap<u32, [u8; 16]>,
}

impl View for KeyBag {
    type V = Map<KeyIndex, Seq<u8>>;

    closed spec fn view(&self) -> Map<KeyIndex, Seq<u8>> {
        Map::new(
            |idx: KeyIndex| self.keys@.contains_key(key_code(idx)),
            |idx: KeyIndex| self.keys@[key_code(idx)]@,
        )
    }
}

/// The place that one key store is published to, once, for every later
/// reader.
#[derive(Debug)]
pub struct GlobalKeyBag {
    bag: Option<KeyBag>,
}

impl GlobalKeyBag {
    /// The key store that has been published, if one has.
    pub closed spec fn published(&self) -> Option<KeyBag> {
        self.bag
    }

    /// The place with nothing published yet.
    pub fn new() -> (r: Self)
        ensures
            r.published() is None,
    {
        GlobalKeyBag { bag: None }
    }
}

/// Whether `text` is an even number of hexadecimal digits.
pub open spec fn is_hex_text(text: Seq<u8>) -> bool {
    text.len() % 2 == 0 && forall|i: int| 0 <= i < text.len() ==> hex_digit(#[trigger] text[i]) is Some
}

/// The bytes that the hexadecimal digits of `text` spell, two digits to a
/// byte, the high digit first.
pub open spec fn hex_decoded(text: Seq<u8>) -> Seq<u8> {
    Seq::new(
        text.len() / 2,
        |i: int| (hex_digit(text[2 * i])->Some_0 * 16 + hex_digit(text[2 * i + 1])->Some_0) as u8,
    )
}

/// `hex::decode`: decodes a string of hexadecimal digits of either case.
/// It succeeds exactly on an even number of hexadecimal digits, and then
/// gives one byte for every two digits, the high digit first.
#[verifier::external_body]
fn hex_decode(text: &[u8]) -> (r: Result<Vec<u8>, hex::FromHexError>)
    ensures
        r is Ok <==> is_hex_text(text@),
        r is Ok ==> r->Ok_0@ == hex_decoded(text@),
{
    hex::decode(text)
}

/// The lower-case form of an ASCII letter; any other byte is unchanged.
pub open spec fn ascii_lower(c: u8) -> u8 {
    if 'A' as u8 <= c <= 'Z' as u8 {
        (c + 32) as u8
    } else {
        c
    }
}

/// `s` with its ASCII letters in lower case.
pub open spec fn lowered(s: Seq<u8>) -> Seq<u8> {
    Seq::new(s.len(), |i: int| ascii_lower(s[i]))
}

/// The first position at or after `from` where `s` holds `c`, or the
/// length of `s` where there is none.
pub open spec fn find_from(s: Seq<u8>, c: u8, from: int) -> int
    decreases s.len() - from,
{
    if from >= s.len() {
        s.len() as int
    } else if s[from] == c {
        from
    } else {
        find_from(s, c, from + 1)
    }
}

/// What a search finds lies at or after its start, holds the byte that was
/// searched for unless it is the end, and has no such byte before it.
pub proof fn lemma_find_from_bounds(s: Seq<u8>, c: u8, from: int)
    requires
        0 <= from <= s.len(),
    ensures
        from <= find_from(s, c, from) <= s.len(),
        find_from(s, c, from) < s.len() ==> s[find_from(s, c, from)] == c,
        forall|k: int| from <= k < find_from(s, c, from) ==> s[k] != c,
    decreases s.len() - from,
{
    if from < s.len() && s[from] != c {
        lemma_find_from_bounds(s, c, from + 1);
    }
}

/// Whether a line is a comment: it begins with `#`.
pub open spec fn is_comment(line: Seq<u8>) -> bool {
    line.len() > 0 && line[0] == '#' as u8
}

/// Whether a line is blank: it holds nothing but spaces, tabs and carriage
/// returns.
pub open spec fn is_blank(line: Seq<u8>) -> bool {
    forall|i: int|
        0 <= i < line.len() ==> (#[trigger] line[i] == ' ' as u8 || line[i] == 0x09 || line[i]
            == 0x0d)
}

/// Why a text is no list of keys, as contracts speak of it.
pub enum KeyTextFault {
    /// A line has no `=`, or what stands before it is no key identifier.
    Name(KeyNameFault),
    /// What stands after the `=` is not an even number of hexadecimal
    /// digits.
    Hex,
    /// The digits spell this many bytes, not sixteen.
    Length(nat),
}

/// What one line of a key list says.
pub enum KeyLine {
    /// Nothing: the line is blank or a comment.
    Skip,
    /// That the key is filed under the identifier.
    Entry(KeyIndex, Seq<u8>),
    /// Nothing that can be understood.
    Fault(KeyTextFault),
}

/// What a line says: a comment or a blank line says nothing; any other line
/// is read in lower case as a key identifier, `=`, and the thirty-two
/// hexadecimal digits of a key.
pub open spec fn spec_parse_line(line: Seq<u8>) -> KeyLine {
    if is_comment(line) || is_blank(line) {
        KeyLine::Skip
    } else {
        let low = lowered(line);
        let eq = find_from(low, '=' as u8, 0);
        if eq >= low.len() {
            KeyLine::Fault(KeyTextFault::Name(KeyNameFault::KeyType(utf8_lossy(low))))
        } else {
            match spec_parse_name(low.take(eq)) {
                Err(fault) => KeyLine::Fault(KeyTextFault::Name(fault)),
                Ok(idx) => {
                    let digits = low.skip(eq + 1);
                    if !is_hex_text(digits) {
                        KeyLine::Fault(KeyTextFault::Hex)
                    } else if hex_decoded(digits).len() != 16 {
                        KeyLine::Fault(KeyTextFault::Length(hex_decoded(digits).len()))
                    } else {
                        KeyLine::Entry(idx, hex_decoded(digits))
                    }
                },
            }
        }
    }
}

/// The line of `text` that starts at `from` and ends before `end`, where
/// `end` is the position of its line feed or the end of the text. A
/// carriage return before the line feed belongs to the line ending.
pub open spec fn line_body(text: Seq<u8>, from: int, end: int) -> Seq<u8> {
    if end < text.len() && from < end && text[end - 1] == 0x0d {
        text.subrange(from, end - 1)
    } else {
        text.subrange(from, end)
    }
}

/// The keys that the lines of `text` from `from` on add to `keys`, read
/// line by line; a later line for an identifier replaces an earlier one,
/// and the first line that cannot be understood ends the reading.
pub open spec fn spec_parse_text(text: Seq<u8>, from: int, keys: Map<KeyIndex, Seq<u8>>) -> Result<
    Map<KeyIndex, Seq<u8>>,
    KeyTextFault,
>
    decreases text.len() + 1 - from,
{
    if from < 0 || from >= text.len() {
        Ok(keys)
    } else {
        let end = find_from(text, 0x0a, from);
        proof {
            lemma_find_from_bounds(text, 0x0a, from);
        }
        match spec_parse_line(line_body(text, from, end)) {
            KeyLine::Skip => spec_parse_text(text, end + 1, keys),
            KeyLine::Entry(idx, key) => spec_parse_text(text, end + 1, keys.insert(idx, key)),
            KeyLine::Fault(fault) => Err(fault),
        }
    }
}

/// Whether the error `e` reports the fault `fault`.
pub open spec fn reports(e: CytrynaError, fault: KeyTextFault) -> bool {
    match fault {
        KeyTextFault::Name(name_fault) => e matches CytrynaError::KeyIndexFail(pe) && pe@
            == name_fault,
        KeyTextFault::Hex => e is HexError,
        KeyTextFault::Length(n) => e matches CytrynaError::InvalidLength { what, actual, expected }
            && what@ == "key"@ && actual == n && expected == 16,
    }
}

/// The first position at or after `from` where `s` holds `c`, or the
/// length of `s`.
fn find(s: &[u8], c: u8, from: usize) -> (r: usize)
    requires
        from <= s.len(),
    ensures
        r == find_from(s@, c, from as int),
        from <= r <= s.len(),
{
    let mut i = from;
    while i < s.len() && s[i] != c
        invariant
            from <= i <= s.len(),
            find_from(s@, c, from as int) == find_from(s@, c, i as int),
        decreases s.len() - i,
    {
        i = i + 1;
    }
    i
}

/// `s` with its ASCII letters in lower case.
fn to_lowered(s: &[u8]) -> (r: Vec<u8>)
    ensures
        r@ == lowered(s@),
{
    let mut out: Vec<u8> = Vec::new();
    let mut i: usize = 0;
    while i < s.len()
        invariant
            i <= s.len(),
            out@.len() == i,
            forall|k: int| 0 <= k < i ==> out@[k] == ascii_lower(s@[k]),
        decreases s.len() - i,
    {
        let c = s[i];
        if 'A' as u8 <= c && c <= 'Z' as u8 {
            out.push(c + 32);
        } else {
            out.push(c);
        }
        i = i + 1;
    }
    assert(out@ =~= lowered(s@));
    out
}

/// Whether a line holds nothing but spaces, tabs and carriage returns.
fn blank(line: &[u8]) -> (r: bool)
    ensures
        r == is_blank(line@),
{
    let mut i: usize = 0;
    while i < line.len()
        invariant
            i <= line.len(),
            forall|k: int|
                0 <= k < i ==> (#[trigger] line@[k] == ' ' as u8 || line@[k] == 0x09 || line@[k]
                    == 0x0d),
        decreases line.len() - i,
    {
        let c = line[i];
        if !(c == ' ' as u8 || c == 0x09 || c == 0x0d) {
            return false;
        }
        i = i + 1;
    }
    true
}

/// What one line of a key list says, or the error for what it fails to say.
fn parse_line(line: &[u8]) -> (r: CytrynaResult<Option<(KeyIndex, [u8; 16])>>)
    ensures
        match r {
            Ok(None) => spec_parse_line(line@) is Skip,
            Ok(Some((idx, key))) => spec_parse_line(line@) == KeyLine::Entry(idx, key@),
            Err(e) => spec_parse_line(line@) matches KeyLine::Fault(fault) && reports(e, fault),
        },
{
    if (line.len() > 0 && line[0] == '#' as u8) || blank(line) {
        return Ok(None);
    }
    let low_vec = to_lowered(line);
    let low = low_vec.as_slice();
    let eq = find(low, '=' as u8, 0);
    if eq >= low.len() {
        return Err(
            CytrynaError::KeyIndexFail(
                KeyIndexParseError::InvalidKeyType(string_from_utf8_lossy(low)),
            ),
        );
    }
    let name = window(low, 0, eq);
    assert(name@ =~= low@.take(eq as int));
    let idx = match KeyIndex::from_name(name) {
        Ok(idx) => idx,
        Err(e) => {
            return Err(CytrynaError::KeyIndexFail(e));
        },
    };
    let digits = after(low, eq + 1);
    let keyvec = match hex_decode(digits) {
        Ok(v) => v,
        Err(e) => {
            return Err(CytrynaError::HexError(e));
        },
    };
    if keyvec.len() != 16 {
        return Err(CytrynaError::InvalidLength { what: "key", actual: keyvec.len(), expected: 16 });
    }
    let key: [u8; 16] = read_array::<16>(keyvec.as_slice(), 0);
    assert(key@ =~= keyvec@);
    Ok(Some((idx, key)))
}

impl KeyBag {
    /// The key store without keys.
    #[must_use]
    pub fn new() -> (r: Self)
        ensures
            r@ == Map::<KeyIndex, Seq<u8>>::empty(),
    {
        let r = KeyBag { keys: HashMap::new() };
        assert(r@ =~= Map::<KeyIndex, Seq<u8>>::empty());
        r
    }

    /// Files `key` under `idx`; a key that was there before is gone.
    pub fn set_key(&mut self, idx: KeyIndex, key: [u8; 16])
        ensures
            final(self)@ == old(self)@.insert(idx, key@),
    {
        self.keys.insert(code_of(idx), key);
        proof {
            assert forall|other: KeyIndex| key_code(other) == key_code(idx) implies other
                == idx by {
                lemma_key_code_injective(other, idx);
            }
            assert(self@ =~= old(self)@.insert(idx, key@));
        }
    }

    /// Publishes this key store to `global`. Only the first store published
    /// to a place stays there: publishing to a place that holds one changes
    /// nothing.
    pub fn finalize(self, global: &mut GlobalKeyBag)
        ensures
            final(global).published() == (if old(global).published() is Some {
                old(global).published()
            } else {
                Some(self)
            }),
    {
        if global.bag.is_none() {
            global.bag = Some(self);
        }
    }

    /// The key filed under `idx`.
    pub fn get_key(&self, idx: KeyIndex) -> (r: CytrynaResult<&[u8; 16]>)
        ensures
            match r {
                Ok(key) => self@.contains_key(idx) && key@ == self@[idx],
                Err(e) => !self@.contains_key(idx) && e == CytrynaError::MissingKey(idx),
            },
    {
        match self.keys.get(&code_of(idx)) {
            Some(key) => Ok(key),
            None => Err(CytrynaError::MissingKey(idx)),
        }
    }

    /// The key store published to `global`.
    pub fn global(global: &GlobalKeyBag) -> (r: CytrynaResult<&KeyBag>)
        ensures
            match r {
                Ok(bag) => global.published() == Some(*bag),
                Err(e) => global.published() is None && e == CytrynaError::NoKeyBag,
            },
    {
        match &global.bag {
            Some(bag) => Ok(bag),
            None => Err(CytrynaError::NoKeyBag),
        }
    }

    /// Reads a key store from a text of one `name=hexvalue` pair per line.
    /// Blank lines and lines that begin with `#` are passed over; letters
    /// count in either case; every key is exactly sixteen bytes.
    #[must_use]
    pub fn from_string(string: &str) -> (r: CytrynaResult<Self>)
        ensures
            match r {
                Ok(bag) => spec_parse_text(
                    string.spec_bytes(),
                    0,
                    Map::<KeyIndex, Seq<u8>>::empty(),
                ) == Ok::<Map<KeyIndex, Seq<u8>>, KeyTextFault>(bag@),
                Err(e) => spec_parse_text(
                    string.spec_bytes(),
                    0,
                    Map::<KeyIndex, Seq<u8>>::empty(),
                ) matches Err(fault) && reports(e, fault),
            },
    {
        let text = string.as_bytes();
        let mut this = Self::new();
        let mut pos: usize = 0;
        while pos < text.len()
            invariant
                pos <= text.len(),
                text@ == string.spec_bytes(),
                spec_parse_text(text@, 0, Map::<KeyIndex, Seq<u8>>::empty()) == spec_parse_text(
                    text@,
                    pos as int,
                    this@,
                ),
            decreases text.len() - pos,
        {
            let end = find(text, 0x0a, pos);
            let stop = if end < text.len() && pos < end && text[end - 1] == 0x0d {
                end - 1
            } else {
                end
            };
            let line = window(text, pos, stop - pos);
            assert(line@ == line_body(text@, pos as int, end as int));
            match parse_line(line) {
                Ok(None) => {},
                Ok(Some((idx, key))) => {
                    this.set_key(idx, key);
                },
                Err(e) => {
                    return Err(e);
                },
            }
            if end == text.len() {
                assert(spec_parse_text(text@, end + 1, this@) == Ok::<
                    Map<KeyIndex, Seq<u8>>,
                    KeyTextFault,
                >(this@));
                return Ok(this);
            }
            pos = end + 1;
        }
        Ok(this)
    }

    /// Files `key` as the common normal key number `idx`.
    pub fn set_common_key(&mut self, key: [u8; 0x10], idx: usize)
        requires
            idx < 2,
        ensures
            final(self)@ == old(self)@.insert(KeyIndex::CommonN(idx as u8), key@),
    {
        self.set_key(KeyIndex::CommonN(idx as u8), key);
    }

    /// Publishes this key store to `global`, as `finalize` does.
    pub fn set(self, global: &mut GlobalKeyBag)
        ensures
            final(global).published() == (if old(global).published() is Some {
                old(global).published()
            } else {
                Some(self)
            }),
    {
        self.finalize(global);
    }
}

} // verus!
