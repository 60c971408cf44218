//! Key identifiers, the key store, key derivation, the ciphers, and the
//! signed envelope.

pub mod cipher;
pub mod keybag;
pub mod keygen;
pub mod keyindex;
pub mod signed;

pub use crate::crypto::cipher::{aes128_cbc_decrypted, aes128_ctr_applied, sha256};
pub use crate::crypto::keybag::{
    ascii_lower, find_from, hex_decoded, is_blank, is_comment, is_hex_text, line_body, lowered,
    reports, spec_parse_line, spec_parse_text, GlobalKeyBag, KeyBag, KeyLine, KeyTextFault,
};
pub use crate::crypto::keygen::{
    add_mod_2_128, keygen, keygen_with, spec_keygen, spec_keygen_outcome, spec_keygen_u128,
};
pub use crate::crypto::keyindex::{
    has_prefix, hex_digit, hex_digit_value, slot_key_type, spec_parse_common, spec_parse_name,
    spec_parse_slot, KeyIndex, KeyIndexParseError, KeyNameFault, KeyType,
};
pub use crate::crypto::signed::{spec_signed_data, SignatureType, SignedData, ISSUER_SIZE};

pub(crate) use crate::crypto::cipher::{aes128_cbc_decrypt, aes128_ctr_apply};
