//! Key identifiers: the structured addresses of the keys in the key
//! store, their names, and the grammar of the names.

use vstd::prelude::*;
use vstd::string::{StringExecFns, StringSliceAdditionalSpecFns};
use crate::bytes::{same_bytes, window};
use crate::string::{
    decimal, hex_upper, spec_decimal, spec_hex_upper, string_from_utf8_lossy, utf8_lossy,
};

verus! {

/// Which of the three keys of a hardware slot is meant.
#[derive(Debug, Clone, Copy, Eq, Hash, PartialEq, Structural)]
pub enum KeyType {
    /// KeyX
    X,
    /// KeyY
    Y,
    /// The normal key
    N,
}

/// The structured address of one key in the key store.
#[derive(Debug, Clone, Copy, Eq, Hash, PartialEq, Structural)]
pub enum KeyIndex {
    /// The constant added during key derivation.
    Generator,
    /// A key of one of the console's AES slots.
    Slot(u8, KeyType),
    /// A common KeyY used to unwrap title keys.
    Common(u8),
    /// A common normal key used to unwrap title keys.
    CommonN(u8),
}

/// Why a name is no key identifier, as contracts speak of it.
pub enum KeyNameFault {
    /// The slot or common-key number is missing or is no hexadecimal number.
    Number,
    /// The name belongs to no family of keys; the text is the whole name.
    KeyType(Seq<char>),
    /// The slot's key is none of X, Y, N; the text is what stands in its place.
    KeyXYNType(Seq<char>),
}

/// Why a name is no key identifier.
#[derive(Debug)]
pub enum KeyIndexParseError {
    /// The slot or common-key number is missing or is no hexadecimal number.
    NumberParseError,
    /// The name belongs to no family of keys.
    InvalidKeyType(String),
    /// The slot's key is none of X, Y, N.
    InvalidKeyXYNType(String),
}

impl View for KeyIndexParseError {
    type V = KeyNameFault;

    open spec fn view(&self) -> KeyNameFault {
        match self {
            KeyIndexParseError::NumberParseError => KeyNameFault::Number,
            KeyIndexParseError::InvalidKeyType(s) => KeyNameFault::KeyType(s@),
            KeyIndexParseError::InvalidKeyXYNType(s) => KeyNameFault::KeyXYNType(s@),
        }
    }
}

/// The value of a hexadecimal digit, of either case.
pub open spec fn hex_digit(c: u8) -> Option<u8> {
    if '0' as u8 <= c <= '9' as u8 {
        Some((c - '0' as u8) as u8)
    } else if 'a' as u8 <= c <= 'f' as u8 {
        Some((c - 'a' as u8 + 10) as u8)
    } else if 'A' as u8 <= c <= 'F' as u8 {
        Some((c - 'A' as u8 + 10) as u8)
    } else {
        None
    }
}

/// Whether `s` begins with `word`.
pub open spec fn has_prefix(s: Seq<u8>, word: Seq<u8>) -> bool {
    word.len() <= s.len() && s.take(word.len() as int) == word
}

/// The name of the generator constant.
pub open spec fn word_generator() -> Seq<u8> {
    seq![
        'g' as u8,
        'e' as u8,
        'n' as u8,
        'e' as u8,
        'r' as u8,
        'a' as u8,
        't' as u8,
        'o' as u8,
        'r' as u8,
    ]
}

/// The word that begins the name of a slot's key.
pub open spec fn word_slot() -> Seq<u8> {
    seq!['s' as u8, 'l' as u8, 'o' as u8, 't' as u8]
}

/// The word that begins the name of a common key.
pub open spec fn word_common() -> Seq<u8> {
    seq!['c' as u8, 'o' as u8, 'm' as u8, 'm' as u8, 'o' as u8, 'n' as u8]
}

/// The suffix that names the KeyX of a slot.
pub open spec fn word_keyx() -> Seq<u8> {
    seq!['k' as u8, 'e' as u8, 'y' as u8, 'x' as u8]
}

/// The suffix that names the KeyY of a slot.
pub open spec fn word_keyy() -> Seq<u8> {
    seq!['k' as u8, 'e' as u8, 'y' as u8, 'y' as u8]
}

/// The suffix that names the normal key of a slot.
pub open spec fn word_keyn() -> Seq<u8> {
    seq!['k' as u8, 'e' as u8, 'y' as u8, 'n' as u8]
}

/// The key of a slot that a suffix names, if it names one.
pub open spec fn slot_key_type(suffix: Seq<u8>) -> Option<KeyType> {
    if suffix == word_keyx() {
        Some(KeyType::X)
    } else if suffix == word_keyy() {
        Some(KeyType::Y)
    } else if suffix == word_keyn() {
        Some(KeyType::N)
    } else {
        None
    }
}

/// What follows the word `slot`: `0x`, two hexadecimal digits, and the
/// key's kind.
pub open spec fn spec_parse_slot(rest: Seq<u8>) -> Result<KeyIndex, KeyNameFault> {
    if rest.len() >= 4 && rest[0] == '0' as u8 && rest[1] == 'x' as u8 && hex_digit(rest[2]) is Some
        && hex_digit(rest[3]) is Some {
        let num = (hex_digit(rest[2])->Some_0 * 16 + hex_digit(rest[3])->Some_0) as u8;
        match slot_key_type(rest.skip(4)) {
            Some(ty) => Ok(KeyIndex::Slot(num, ty)),
            None => Err(KeyNameFault::KeyXYNType(utf8_lossy(rest.skip(4)))),
        }
    } else {
        Err(KeyNameFault::Number)
    }
}

/// What follows the word `common` in `name`: one hexadecimal digit, and
/// then either nothing, for a KeyY, or the letter `n`, for a normal key.
pub open spec fn spec_parse_common(name: Seq<u8>, rest: Seq<u8>) -> Result<
    KeyIndex,
    KeyNameFault,
> {
    if rest.len() >= 1 && hex_digit(rest[0]) is Some {
        let num = hex_digit(rest[0])->Some_0;
        if rest.len() == 1 {
            Ok(KeyIndex::Common(num))
        } else if rest.len() == 2 && rest[1] == 'n' as u8 {
            Ok(KeyIndex::CommonN(num))
        } else {
            Err(KeyNameFault::KeyType(utf8_lossy(name)))
        }
    } else {
        Err(KeyNameFault::Number)
    }
}

/// The key identifier that a name stands for. The grammar is fixed:
/// `generator`; `slot0x`, two hexadecimal digits and one of `keyx`, `keyy`,
/// `keyn`; `common` and one hexadecimal digit for a common KeyY, with an
/// `n` after the digit for a common normal key.
pub open spec fn spec_parse_name(name: Seq<u8>) -> Result<KeyIndex, KeyNameFault> {
    if name == word_generator() {
        Ok(KeyIndex::Generator)
    } else if has_prefix(name, word_slot()) {
        spec_parse_slot(name.skip(4))
    } else if has_prefix(name, word_common()) {
        spec_parse_common(name, name.skip(6))
    } else {
        Err(KeyNameFault::KeyType(utf8_lossy(name)))
    }
}

/// The value of the hexadecimal digit `c`, if it is one.
pub fn hex_digit_value(c: u8) -> (r: Option<u8>)
    ensures
        r == hex_digit(c),
{
    if '0' as u8 <= c && c <= '9' as u8 {
        Some(c - '0' as u8)
    } else if 'a' as u8 <= c && c <= 'f' as u8 {
        Some(c - 'a' as u8 + 10)
    } else if 'A' as u8 <= c && c <= 'F' as u8 {
        Some(c - 'A' as u8 + 10)
    } else {
        None
    }
}

/// Whether `s` begins with `word`.
fn starts_with(s: &[u8], word: &[u8]) -> (r: bool)
    ensures
        r == has_prefix(s@, word@),
{
    if word.len() > s.len() {
        return false;
    }
    let head = window(s, 0, word.len());
    assert(head@ =~= s@.take(word@.len() as int));
    same_bytes(head, word)
}

/// What is left of `s` after its first `n` bytes.
pub(crate) fn after<'a>(s: &'a [u8], n: usize) -> (r: &'a [u8])
    requires
        n <= s.len(),
    ensures
        r@ == s@.skip(n as int),
{
    let r = window(s, n, s.len() - n);
    assert(r@ =~= s@.skip(n as int));
    r
}

impl KeyIndex {
    /// Parses what follows the word `slot`.
    fn parse_slot(rest: &[u8]) -> (r: Result<KeyIndex, KeyIndexParseError>)
        ensures
            match r {
                Ok(idx) => spec_parse_slot(rest@) == Ok::<KeyIndex, KeyNameFault>(idx),
                Err(e) => spec_parse_slot(rest@) == Err::<KeyIndex, KeyNameFault>(e@),
            },
    {
        if rest.len() < 4 || rest[0] != '0' as u8 || rest[1] != 'x' as u8 {
            return Err(KeyIndexParseError::NumberParseError);
        }
        let hi = match hex_digit_value(rest[2]) {
            Some(v) => v,
            None => {
                return Err(KeyIndexParseError::NumberParseError);
            },
        };
        let lo = match hex_digit_value(rest[3]) {
            Some(v) => v,
            None => {
                return Err(KeyIndexParseError::NumberParseError);
            },
        };
        let num: u8 = hi * 16 + lo;
        let suffix = after(rest, 4);
        let keyx: [u8; 4] = ['k' as u8, 'e' as u8, 'y' as u8, 'x' as u8];
        let keyy: [u8; 4] = ['k' as u8, 'e' as u8, 'y' as u8, 'y' as u8];
        let keyn: [u8; 4] = ['k' as u8, 'e' as u8, 'y' as u8, 'n' as u8];
        assert(keyx@ =~= word_keyx());
        assert(keyy@ =~= word_keyy());
        assert(keyn@ =~= word_keyn());
        if same_bytes(suffix, keyx.as_slice()) {
            Ok(KeyIndex::Slot(num, KeyType::X))
        } else if same_bytes(suffix, keyy.as_slice()) {
            Ok(KeyIndex::Slot(num, KeyType::Y))
        } else if same_bytes(suffix, keyn.as_slice()) {
            Ok(KeyIndex::Slot(num, KeyType::N))
        } else {
            Err(KeyIndexParseError::InvalidKeyXYNType(string_from_utf8_lossy(suffix)))
        }
    }

    /// Parses what follows the word `common` in `name`.
    fn parse_common(name: &[u8], rest: &[u8]) -> (r: Result<KeyIndex, KeyIndexParseError>)
        ensures
            match r {
                Ok(idx) => spec_parse_common(name@, rest@) == Ok::<KeyIndex, KeyNameFault>(idx),
                Err(e) => spec_parse_common(name@, rest@) == Err::<KeyIndex, KeyNameFault>(e@),
            },
    {
        if rest.len() < 1 {
            return Err(KeyIndexParseError::NumberParseError);
        }
        let num = match hex_digit_value(rest[0]) {
            Some(v) => v,
            None => {
                return Err(KeyIndexParseError::NumberParseError);
            },
        };
        if rest.len() == 1 {
            Ok(KeyIndex::Common(num))
        } else if rest.len() == 2 && rest[1] == 'n' as u8 {
            Ok(KeyIndex::CommonN(num))
        } else {
            Err(KeyIndexParseError::InvalidKeyType(string_from_utf8_lossy(name)))
        }
    }

    /// The key identifier that `name` stands for.
    pub fn from_name(name: &[u8]) -> (r: Result<KeyIndex, KeyIndexParseError>)
        ensures
            match r {
                Ok(idx) => spec_parse_name(name@) == Ok::<KeyIndex, KeyNameFault>(idx),
                Err(e) => spec_parse_name(name@) == Err::<KeyIndex, KeyNameFault>(e@),
            },
    {
        let generator: [u8; 9] = [
            'g' as u8,
            'e' as u8,
            'n' as u8,
            'e' as u8,
            'r' as u8,
            'a' as u8,
            't' as u8,
            'o' as u8,
            'r' as u8,
        ];
        let slot: [u8; 4] = ['s' as u8, 'l' as u8, 'o' as u8, 't' as u8];
        let common: [u8; 6] = ['c' as u8, 'o' as u8, 'm' as u8, 'm' as u8, 'o' as u8, 'n' as u8];
        assert(generator@ =~= word_generator());
        assert(slot@ =~= word_slot());
        assert(common@ =~= word_common());
        if same_bytes(name, generator.as_slice()) {
            Ok(KeyIndex::Generator)
        } else if starts_with(name, slot.as_slice()) {
            KeyIndex::parse_slot(after(name, 4))
        } else if starts_with(name, common.as_slice()) {
            KeyIndex::parse_common(name, after(name, 6))
        } else {
            Err(KeyIndexParseError::InvalidKeyType(string_from_utf8_lossy(name)))
        }
    }

    /// The key identifier that the text `from` stands for.
    pub fn from_str(from: &str) -> (r: Result<KeyIndex, KeyIndexParseError>)
        ensures
            match r {
                Ok(idx) => spec_parse_name(from.spec_bytes()) == Ok::<KeyIndex, KeyNameFault>(idx),
                Err(e) => spec_parse_name(from.spec_bytes()) == Err::<KeyIndex, KeyNameFault>(
                    e@,
                ),
            },
    {
        KeyIndex::from_name(from.as_bytes())
    }

    /// The name of the key: `generator`; `slot0x`, the number of the slot
    /// in base sixteen, `Key` and the letter of the key; `common` and the
    /// number in base ten, with an `N` after it for a normal key.
    pub open spec fn spec_to_string(self) -> Seq<char> {
        match self {
            KeyIndex::Generator => "generator"@,
            KeyIndex::Slot(num, ty) => "slot0x"@ + spec_hex_upper(num) + "Key"@
                + ty.spec_to_string(),
            KeyIndex::Common(num) => "common"@ + spec_decimal(num as nat),
            KeyIndex::CommonN(num) => "common"@ + spec_decimal(num as nat) + "N"@,
        }
    }

    /// The name of the key.
    pub fn to_string(&self) -> (r: String)
        ensures
            r@ == self.spec_to_string(),
    {
        match self {
            KeyIndex::Generator => String::from_str("generator"),
            KeyIndex::Slot(num, ty) => {
                let mut s = String::from_str("slot0x");
                s.append(hex_upper(*num).as_str());
                s.append("Key");
                s.append(ty.as_str());
                s
            },
            KeyIndex::Common(num) => {
                let mut s = String::from_str("common");
                s.append(decimal(*num as usize).as_str());
                s
            },
            KeyIndex::CommonN(num) => {
                let mut s = String::from_str("common");
                s.append(decimal(*num as usize).as_str());
                s.append("N");
                s
            },
        }
    }
}

impl KeyType {
    /// The letter of the key: `X`, `Y` or `N`.
    pub open spec fn spec_to_string(self) -> Seq<char> {
        match self {
            KeyType::X => "X"@,
            KeyType::Y => "Y"@,
            KeyType::N => "N"@,
        }
    }

    /// The letter of the key.
    pub fn as_str(&self) -> (r: &'static str)
        ensures
            r@ == self.spec_to_string(),
    {
        match self {
            KeyType::X => "X",
            KeyType::Y => "Y",
            KeyType::N => "N",
        }
    }

    /// The letter of the key.
    pub fn to_string(&self) -> (r: String)
        ensures
            r@ == self.spec_to_string(),
    {
        String::from_str(self.as_str())
    }
}

impl core::str::FromStr for KeyIndex {
    type Err = KeyIndexParseError;

    /// The key identifier that the text `from` stands for, by the grammar of
    /// the names: what `from_name` makes of the bytes of the text.
    fn from_str(from: &str) -> (r: Result<Self, KeyIndexParseError>)
        ensures
            match r {
                Ok(idx) => spec_parse_name(from.spec_bytes()) == Ok::<KeyIndex, KeyNameFault>(idx),
                Err(e) => spec_parse_name(from.spec_bytes()) == Err::<KeyIndex, KeyNameFault>(
                    e@,
                ),
            },
    {
        KeyIndex::from_name(from.as_bytes())
    }
}

impl KeyIndexParseError {
    /// What went wrong, in words.
    pub open spec fn spec_message(&self) -> Seq<char> {
        match self {
            KeyIndexParseError::NumberParseError => "Failed to parse a hex number"@,
            KeyIndexParseError::InvalidKeyType(s) => "Invalid key type \""@ + s@ + "\""@,
            KeyIndexParseError::InvalidKeyXYNType(s) => "Invalid X/Y/Z key type \""@ + s@ + "\""@,
        }
    }

    /// What went wrong, in words.
    pub fn message(&self) -> (r: String)
        ensures
            r@ == self.spec_message(),
    {
        match self {
            KeyIndexParseError::NumberParseError => String::from_str(
                "Failed to parse a hex number",
            ),
            KeyIndexParseError::InvalidKeyType(s) => {
                let mut m = String::from_str("Invalid key type \"");
                m.append(s.as_str());
                m.append("\"");
                m
            },
            KeyIndexParseError::InvalidKeyXYNType(s) => {
                let mut m = String::from_str("Invalid X/Y/Z key type \"");
                m.append(s.as_str());
                m.append("\"");
                m
            },
        }
    }
}

} // verus!
