//! Fixed-width text fields: a run of bytes or of UTF-16 units of a fixed
//! length, padded with zeros.

use vstd::prelude::*;
use vstd::string::StringExecFns;
use vstd::utf8::{decode_utf8, valid_utf8};
use crate::bytes::all_zero;

verus! {

/// `core::str::Utf8Error`: where a byte string stops being UTF-8.
#[verifier::external_type_specification]
#[verifier::external_body]
pub struct ExUtf8Error(core::str::Utf8Error);

/// `std::string::FromUtf16Error`: the units are no UTF-16 text.
#[verifier::external_type_specification]
#[verifier::external_body]
pub struct ExFromUtf16Error(std::string::FromUtf16Error);

/// The text that `String::from_utf8_lossy` makes of a byte string: the
/// decoded text where the bytes are UTF-8, and otherwise the text with a
/// replacement character for every ill-formed run.
pub uninterp spec fn utf8_lossy(bytes: Seq<u8>) -> Seq<char>;

/// Whether a UTF-16 unit is the first half of a pair.
pub open spec fn is_high_surrogate(unit: u16) -> bool {
    0xd800 <= unit <= 0xdbff
}

/// Whether a UTF-16 unit is the second half of a pair.
pub open spec fn is_low_surrogate(unit: u16) -> bool {
    0xdc00 <= unit <= 0xdfff
}

/// The character that a pair of UTF-16 units stands for.
pub open spec fn surrogate_pair_char(high: u16, low: u16) -> char {
    (0x1_0000 + (high - 0xd800) * 0x400 + (low - 0xdc00)) as char
}

/// The text that a well-formed string of UTF-16 units stands for, if it is
/// well formed: a unit that is no half of a pair stands for itself, a first
/// half and the second half after it stand for one character, and a half
/// without its other half makes the string ill-formed.
pub open spec fn utf16_decoded(units: Seq<u16>) -> Option<Seq<char>>
    decreases units.len(),
{
    if units.len() == 0 {
        Some(Seq::empty())
    } else if is_high_surrogate(units[0]) {
        if units.len() >= 2 && is_low_surrogate(units[1]) {
            match utf16_decoded(units.skip(2)) {
                Some(rest) => Some(seq![surrogate_pair_char(units[0], units[1])] + rest),
                None => None,
            }
        } else {
            None
        }
    } else if is_low_surrogate(units[0]) {
        None
    } else {
        match utf16_decoded(units.skip(1)) {
            Some(rest) => Some(seq![units[0] as char] + rest),
            None => None,
        }
    }
}

/// The text that a string of UTF-16 units stands for, with the replacement
/// character for every half of a pair that stands without its other half.
pub open spec fn utf16_lossy(units: Seq<u16>) -> Seq<char>
    decreases units.len(),
{
    if units.len() == 0 {
        Seq::empty()
    } else if is_high_surrogate(units[0]) && units.len() >= 2 && is_low_surrogate(units[1]) {
        seq![surrogate_pair_char(units[0], units[1])] + utf16_lossy(units.skip(2))
    } else if is_high_surrogate(units[0]) || is_low_surrogate(units[0]) {
        seq!['\u{fffd}'] + utf16_lossy(units.skip(1))
    } else {
        seq![units[0] as char] + utf16_lossy(units.skip(1))
    }
}

/// The UTF-16 units of one character: the character itself where it is
/// below 0x10000, and a pair of units for any other.
pub open spec fn utf16_units(c: char) -> Seq<u16> {
    if (c as u32) < 0x1_0000 {
        seq![c as u16]
    } else {
        seq![
            (0xd800 + (c as u32 - 0x1_0000) / 0x400) as u16,
            (0xdc00 + (c as u32 - 0x1_0000) % 0x400) as u16,
        ]
    }
}

/// The UTF-16 units that encode a text.
pub open spec fn utf16_encoded(text: Seq<char>) -> Seq<u16>
    decreases text.len(),
{
    if text.len() == 0 {
        Seq::empty()
    } else {
        utf16_units(text[0]) + utf16_encoded(text.skip(1))
    }
}

/// `core::str::from_utf8`: succeeds exactly on well-formed UTF-8 and then
/// gives the text that the bytes encode.
#[verifier::external_body]
pub(crate) fn str_from_utf8<'a>(bytes: &'a [u8]) -> (r: Result<&'a str, core::str::Utf8Error>)
    ensures
        r is Ok <==> valid_utf8(bytes@),
        r is Ok ==> r->Ok_0@ == decode_utf8(bytes@),
{
    core::str::from_utf8(bytes)
}

/// `String::from_utf8_lossy`: the text of the bytes, with replacement
/// characters where they are not UTF-8; well-formed input is decoded as it
/// stands.
#[verifier::external_body]
pub(crate) fn string_from_utf8_lossy(bytes: &[u8]) -> (r: String)
    ensures
        r@ == utf8_lossy(bytes@),
        valid_utf8(bytes@) ==> r@ == decode_utf8(bytes@),
{
    String::from_utf8_lossy(bytes).into_owned()
}

/// `String::from_utf16`: succeeds exactly on well-formed UTF-16 and then
/// gives the text that the units encode.
#[verifier::external_body]
pub(crate) fn string_from_utf16(units: &[u16]) -> (r: Result<String, std::string::FromUtf16Error>)
    ensures
        r is Ok <==> utf16_decoded(units@) is Some,
        r is Ok ==> r->Ok_0@ == utf16_decoded(units@)->Some_0,
{
    String::from_utf16(units)
}

/// `String::from_utf16_lossy`: the text of the units, with the
/// replacement character for every unpaired surrogate.
#[verifier::external_body]
pub(crate) fn string_from_utf16_lossy(units: &[u16]) -> (r: String)
    ensures
        r@ == utf16_lossy(units@),
{
    String::from_utf16_lossy(units)
}

/// `str::encode_utf16`, collected: the UTF-16 units of a text.
#[verifier::external_body]
pub(crate) fn str_encode_utf16(text: &str) -> (r: Vec<u16>)
    ensures
        r@ == utf16_encoded(text@),
{
    text.encode_utf16().collect()
}

/// Why a text does not fit a fixed-width field.
#[derive(Debug)]
pub enum SizedCStringError {
    /// The text has more units than the field has room for.
    TooBig,
}

/// A text field of exactly `SIZE` bytes.
#[derive(Clone, Copy, Debug)]
pub struct SizedCString<const SIZE: usize>(pub [u8; SIZE]);

impl<const SIZE: usize> View for SizedCString<SIZE> {
    type V = Seq<u8>;

    open spec fn view(&self) -> Seq<u8> {
        self.0@
    }
}

impl<const SIZE: usize> SizedCString<SIZE> {
    /// The field as text, if its bytes are UTF-8.
    pub fn as_str(&self) -> (r: Result<&str, core::str::Utf8Error>)
        ensures
            r is Ok <==> valid_utf8(self@),
            r is Ok ==> r->Ok_0@ == decode_utf8(self@),
    {
        str_from_utf8(self.0.as_slice())
    }

    /// The field as text, with replacement characters where its bytes are
    /// not UTF-8.
    pub fn to_string_lossy(&self) -> (r: String)
        ensures
            r@ == utf8_lossy(self@),
            valid_utf8(self@) ==> r@ == decode_utf8(self@),
    {
        string_from_utf8_lossy(self.0.as_slice())
    }

    /// Whether every byte of the field is zero.
    pub fn is_zero(&self) -> (r: bool)
        ensures
            r == (forall|k: int| 0 <= k < self@.len() ==> self@[k] == 0),
    {
        let bytes = self.0.as_slice();
        let r = all_zero(bytes);
        assert(bytes@ =~= self@);
        r
    }

    /// The bytes of the field.
    pub fn data(&self) -> (r: &[u8])
        ensures
            r@ == self@,
    {
        self.0.as_slice()
    }
}

impl<const SIZE: usize> From<[u8; SIZE]> for SizedCString<SIZE> {
    fn from(other: [u8; SIZE]) -> (r: SizedCString<SIZE>) {
        SizedCString(other)
    }
}

impl<const SIZE: usize> vstd::std_specs::convert::FromSpecImpl<[u8; SIZE]> for SizedCString<SIZE> {
    open spec fn obeys_from_spec() -> bool {
        true
    }

    open spec fn from_spec(other: [u8; SIZE]) -> SizedCString<SIZE> {
        SizedCString(other)
    }
}

/// A text field of exactly `SIZE` UTF-16 units.
#[derive(Clone, Copy, Debug)]
pub struct SizedCStringUtf16<const SIZE: usize> {
    pub data: [u16; SIZE],
}

impl<const SIZE: usize> View for SizedCStringUtf16<SIZE> {
    type V = Seq<u16>;

    open spec fn view(&self) -> Seq<u16> {
        self.data@
    }
}

/// `text` followed by as many zeros as fill `size` units.
pub open spec fn zero_padded(text: Seq<u16>, size: int) -> Seq<u16> {
    Seq::new(size as nat, |i: int| if i < text.len() { text[i] } else { 0u16 })
}

impl<const SIZE: usize> SizedCStringUtf16<SIZE> {
    /// The field as text, if its units are well-formed UTF-16.
    pub fn to_string(&self) -> (r: Result<String, std::string::FromUtf16Error>)
        ensures
            r is Ok <==> utf16_decoded(self@) is Some,
            r is Ok ==> r->Ok_0@ == utf16_decoded(self@)->Some_0,
    {
        string_from_utf16(self.data.as_slice())
    }

    /// The field as text, with replacement characters for unpaired
    /// surrogates.
    pub fn to_string_lossy(&self) -> (r: String)
        ensures
            r@ == utf16_lossy(self@),
    {
        string_from_utf16_lossy(self.data.as_slice())
    }

    /// Whether every unit of the field is zero.
    pub fn is_zero(&self) -> (r: bool)
        ensures
            r == (forall|k: int| 0 <= k < self@.len() ==> self@[k] == 0),
    {
        let mut i: usize = 0;
        while i < SIZE
            invariant
                i <= SIZE,
                self@.len() == SIZE,
                forall|k: int| 0 <= k < i ==> self@[k] == 0,
            decreases SIZE - i,
        {
            if self.data[i] != 0 {
                return false;
            }
            i = i + 1;
        }
        true
    }

    /// The units of the field.
    pub fn data(&self) -> (r: &[u16])
        ensures
            r@ == self@,
    {
        self.data.as_slice()
    }

    /// The field that holds `value`, padded with zeros; `TooBig` where the
    /// text takes more than `SIZE` units.
    pub fn try_from_str(value: &str) -> (r: Result<Self, SizedCStringError>)
        ensures
            match r {
                Ok(s) => utf16_encoded(value@).len() <= SIZE && s@ == zero_padded(
                    utf16_encoded(value@),
                    SIZE as int,
                ),
                Err(e) => utf16_encoded(value@).len() > SIZE && e is TooBig,
            },
    {
        let units = str_encode_utf16(value);
        if units.len() > SIZE {
            return Err(SizedCStringError::TooBig);
        }
        let mut data = [0u16; SIZE];
        let mut i: usize = 0;
        while i < units.len()
            invariant
                i <= units@.len() <= SIZE,
                data@.len() == SIZE,
                forall|k: int| 0 <= k < i ==> data@[k] == units@[k],
                forall|k: int| i <= k < SIZE ==> data@[k] == 0,
            decreases units@.len() - i,
        {
            data[i] = units[i];
            i = i + 1;
        }
        assert(data@ =~= zero_padded(units@, SIZE as int));
        Ok(SizedCStringUtf16 { data })
    }
}


/// The digit that stands for `d` in the bases up to sixteen, with capital
/// letters for ten to fifteen.
pub open spec fn spec_digit(d: int) -> Seq<char> {
    if d == 0 {
        "0"@
    } else if d == 1 {
        "1"@
    } else if d == 2 {
        "2"@
    } else if d == 3 {
        "3"@
    } else if d == 4 {
        "4"@
    } else if d == 5 {
        "5"@
    } else if d == 6 {
        "6"@
    } else if d == 7 {
        "7"@
    } else if d == 8 {
        "8"@
    } else if d == 9 {
        "9"@
    } else if d == 10 {
        "A"@
    } else if d == 11 {
        "B"@
    } else if d == 12 {
        "C"@
    } else if d == 13 {
        "D"@
    } else if d == 14 {
        "E"@
    } else {
        "F"@
    }
}

/// `n` written in base ten, without leading zeros.
pub open spec fn spec_decimal(n: nat) -> Seq<char>
    decreases n,
{
    if n < 10 {
        spec_digit(n as int)
    } else {
        spec_decimal(n / 10) + spec_digit((n % 10) as int)
    }
}

/// `n` written in base sixteen with capital letters, without leading
/// zeros.
pub open spec fn spec_hex_upper(n: u8) -> Seq<char> {
    if n < 16 {
        spec_digit(n as int)
    } else {
        spec_digit((n / 16) as int) + spec_digit((n % 16) as int)
    }
}

/// The digit that stands for `d`.
pub fn digit(d: u8) -> (r: &'static str)
    requires
        d < 16,
    ensures
        r@ == spec_digit(d as int),
{
    if d == 0 {
        "0"
    } else if d == 1 {
        "1"
    } else if d == 2 {
        "2"
    } else if d == 3 {
        "3"
    } else if d == 4 {
        "4"
    } else if d == 5 {
        "5"
    } else if d == 6 {
        "6"
    } else if d == 7 {
        "7"
    } else if d == 8 {
        "8"
    } else if d == 9 {
        "9"
    } else if d == 10 {
        "A"
    } else if d == 11 {
        "B"
    } else if d == 12 {
        "C"
    } else if d == 13 {
        "D"
    } else if d == 14 {
        "E"
    } else {
        "F"
    }
}

/// `n` written in base ten.
pub fn decimal(n: usize) -> (r: String)
    ensures
        r@ == spec_decimal(n as nat),
    decreases n,
{
    if n < 10 {
        String::from_str(digit(n as u8))
    } else {
        let mut s = decimal(n / 10);
        s.append(digit((n % 10) as u8));
        s
    }
}

/// `n` written in base sixteen with capital letters.
pub fn hex_upper(n: u8) -> (r: String)
    ensures
        r@ == spec_hex_upper(n),
{
    if n < 16 {
        String::from_str(digit(n))
    } else {
        let mut s = String::from_str(digit(n / 16));
        s.append(digit(n % 16));
        s
    }
}

} // verus!
