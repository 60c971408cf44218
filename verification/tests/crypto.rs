use cytryna::crypto::{
    keygen, keygen_with, sha256, GlobalKeyBag, KeyBag, KeyIndex, KeyIndexParseError, KeyType,
    SignatureType, SignedData,
};
use cytryna::ticket::TicketInner;
use cytryna::CytrynaError;

const RANDOM_GENERATOR: [u8; 0x10] = [
    0x12, 0x59, 0x9a, 0x14, 0xff, 0x66, 0xda, 0x9f, 0x65, 0xc1, 0x3e, 0xad, 0x30, 0x50, 0x15, 0xc7,
];
const RANDOM_X: [u8; 0x10] = [
    0xfa, 0xfe, 0x20, 0x7b, 0xb2, 0x3c, 0xa4, 0x30, 0x16, 0x2a, 0x65, 0xf6, 0xd3, 0xff, 0x50, 0x40,
];
const RANDOM_Y: [u8; 0x10] = [
    0x82, 0x48, 0x62, 0xde, 0xd5, 0xc6, 0xd5, 0x99, 0x23, 0x05, 0x19, 0xf5, 0x2d, 0x27, 0x56, 0xa8,
];
const REFERENCE_KEY: [u8; 0x10] = [
    0x6d, 0xc9, 0x95, 0x16, 0xb9, 0x3e, 0x05, 0x3e, 0xa2, 0x8e, 0x4d, 0x8f, 0xfc, 0x70, 0xb6, 0xe6,
];

#[test]
fn test_keygen() {
    let mut bag = KeyBag::new();
    bag.set_key(KeyIndex::Generator, RANDOM_GENERATOR);
    let mut global = GlobalKeyBag::new();
    bag.finalize(&mut global);

    assert_eq!(keygen(&global, RANDOM_X, RANDOM_Y).unwrap(), REFERENCE_KEY);
}

#[test]
fn keygen_with_matches_wide_arithmetic() {
    assert_eq!(keygen_with(RANDOM_X, RANDOM_Y, RANDOM_GENERATOR), REFERENCE_KEY);
    let x = u128::from_be_bytes(RANDOM_Y);
    let y = u128::from_be_bytes(RANDOM_GENERATOR);
    let g = u128::MAX - 5;
    let expected = ((x.rotate_left(2) ^ y).wrapping_add(g)).rotate_right(41).to_be_bytes();
    assert_eq!(keygen_with(RANDOM_Y, RANDOM_GENERATOR, g.to_be_bytes()), expected);
    assert_eq!(keygen_with([0; 16], [0; 16], [0; 16]), [0; 16]);
    let mut one = [0u8; 16];
    one[15] = 1;
    // x = 1: rotated left by 2 gives 4, rotated right by 41 gives 4 << 87.
    assert_eq!(keygen_with(one, [0; 16], [0; 16]), (4u128 << 87).to_be_bytes());
}

#[test]
fn keygen_without_keys_fails() {
    let global = GlobalKeyBag::new();
    assert!(matches!(keygen(&global, RANDOM_X, RANDOM_Y), Err(CytrynaError::NoKeyBag)));
    let mut global = GlobalKeyBag::new();
    KeyBag::new().finalize(&mut global);
    assert!(matches!(
        keygen(&global, RANDOM_X, RANDOM_Y),
        Err(CytrynaError::MissingKey(KeyIndex::Generator))
    ));
}

#[test]
fn only_the_first_key_bag_is_published() {
    let mut global = GlobalKeyBag::new();
    assert!(matches!(KeyBag::global(&global), Err(CytrynaError::NoKeyBag)));
    let mut first = KeyBag::new();
    first.set_key(KeyIndex::Common(1), [1; 16]);
    first.finalize(&mut global);
    let mut second = KeyBag::new();
    second.set_key(KeyIndex::Common(1), [2; 16]);
    second.set(&mut global);
    let bag = KeyBag::global(&global).unwrap();
    assert_eq!(bag.get_key(KeyIndex::Common(1)).unwrap(), &[1; 16]);
}

#[test]
fn key_bag_last_write_wins() {
    let mut bag = KeyBag::new();
    assert!(matches!(
        bag.get_key(KeyIndex::Slot(0x2c, KeyType::X)),
        Err(CytrynaError::MissingKey(KeyIndex::Slot(0x2c, KeyType::X)))
    ));
    bag.set_key(KeyIndex::Slot(0x2c, KeyType::X), [1; 16]);
    bag.set_key(KeyIndex::Slot(0x2c, KeyType::Y), [2; 16]);
    bag.set_key(KeyIndex::Slot(0x2c, KeyType::X), [3; 16]);
    bag.set_common_key([4; 16], 1);
    assert_eq!(bag.get_key(KeyIndex::Slot(0x2c, KeyType::X)).unwrap(), &[3; 16]);
    assert_eq!(bag.get_key(KeyIndex::Slot(0x2c, KeyType::Y)).unwrap(), &[2; 16]);
    assert_eq!(bag.get_key(KeyIndex::CommonN(1)).unwrap(), &[4; 16]);
    assert!(bag.get_key(KeyIndex::Common(1)).is_err());
    assert!(bag.get_key(KeyIndex::Slot(0x2c, KeyType::N)).is_err());
    assert!(bag.get_key(KeyIndex::Generator).is_err());
}

#[test]
fn key_index_names_parse() {
    assert_eq!(KeyIndex::from_str("generator").unwrap(), KeyIndex::Generator);
    assert_eq!(KeyIndex::from_str("slot0x2ckeyx").unwrap(), KeyIndex::Slot(0x2c, KeyType::X));
    assert_eq!(KeyIndex::from_str("slot0x2Ckeyy").unwrap(), KeyIndex::Slot(0x2c, KeyType::Y));
    assert_eq!(KeyIndex::from_str("slot0x00keyn").unwrap(), KeyIndex::Slot(0, KeyType::N));
    assert_eq!(KeyIndex::from_str("slot0xffkeyn").unwrap(), KeyIndex::Slot(0xff, KeyType::N));
    assert_eq!(KeyIndex::from_str("common0").unwrap(), KeyIndex::Common(0));
    assert_eq!(KeyIndex::from_str("common0n").unwrap(), KeyIndex::CommonN(0));
    assert_eq!(KeyIndex::from_str("common5n").unwrap(), KeyIndex::CommonN(5));
    assert_eq!(KeyIndex::from_str("commonf").unwrap(), KeyIndex::Common(15));
    assert_eq!(KeyIndex::from_name(b"commonAn").unwrap(), KeyIndex::CommonN(10));
    assert_eq!("common0n".parse::<KeyIndex>().unwrap(), KeyIndex::CommonN(0));
    assert_eq!("common0".parse::<KeyIndex>().unwrap(), KeyIndex::Common(0));
}

#[test]
fn key_index_names_are_refused() {
    assert!(matches!(
        KeyIndex::from_str("nothing"),
        Err(KeyIndexParseError::InvalidKeyType(s)) if s == "nothing"
    ));
    assert!(matches!(
        KeyIndex::from_str("Generator"),
        Err(KeyIndexParseError::InvalidKeyType(s)) if s == "Generator"
    ));
    assert!(matches!(KeyIndex::from_str(""), Err(KeyIndexParseError::InvalidKeyType(_))));
    assert!(matches!(
        KeyIndex::from_str("slot0x2ckeyz"),
        Err(KeyIndexParseError::InvalidKeyXYNType(s)) if s == "keyz"
    ));
    assert!(matches!(
        KeyIndex::from_str("slot0x2c"),
        Err(KeyIndexParseError::InvalidKeyXYNType(s)) if s.is_empty()
    ));
    assert!(matches!(KeyIndex::from_str("slot0xzzkeyx"), Err(KeyIndexParseError::NumberParseError)));
    assert!(matches!(KeyIndex::from_str("slot2ckeyx"), Err(KeyIndexParseError::NumberParseError)));
    assert!(matches!(KeyIndex::from_str("slot0x2"), Err(KeyIndexParseError::NumberParseError)));
    assert!(matches!(KeyIndex::from_str("slot"), Err(KeyIndexParseError::NumberParseError)));
    assert!(matches!(KeyIndex::from_str("common"), Err(KeyIndexParseError::NumberParseError)));
    assert!(matches!(KeyIndex::from_str("commong"), Err(KeyIndexParseError::NumberParseError)));
    assert!(matches!(
        KeyIndex::from_str("common0x"),
        Err(KeyIndexParseError::InvalidKeyType(s)) if s == "common0x"
    ));
    assert!(matches!(KeyIndex::from_str("common0nn"), Err(KeyIndexParseError::InvalidKeyType(_))));
}

#[test]
fn key_index_names_are_written() {
    assert_eq!(KeyIndex::Generator.to_string(), "generator");
    assert_eq!(KeyIndex::Slot(0x2c, KeyType::X).to_string(), "slot0x2CKeyX");
    assert_eq!(KeyIndex::Slot(0x5, KeyType::Y).to_string(), "slot0x5KeyY");
    assert_eq!(KeyIndex::Slot(0xff, KeyType::N).to_string(), "slot0xFFKeyN");
    assert_eq!(KeyIndex::Common(0).to_string(), "common0");
    assert_eq!(KeyIndex::Common(255).to_string(), "common255");
    assert_eq!(KeyIndex::CommonN(10).to_string(), "common10N");
    assert_eq!(KeyType::N.to_string(), "N");
}

#[test]
fn key_bag_from_text() {
    let text = "# keys\n\ngenerator=12599a14ff66da9f65c13ead305015c7\r\nSLOT0x2CKeyX=FAFE207BB23CA430162A65F6D3FF5040\n   \ncommon0=000102030405060708090a0b0c0d0e0f\ncommon0=101112131415161718191a1b1c1d1e1f\ncommon1n=824862ded5c6d599230519f52d2756a8";
    let bag = KeyBag::from_string(text).unwrap();
    assert_eq!(bag.get_key(KeyIndex::Generator).unwrap(), &RANDOM_GENERATOR);
    assert_eq!(bag.get_key(KeyIndex::Slot(0x2c, KeyType::X)).unwrap(), &RANDOM_X);
    assert_eq!(
        bag.get_key(KeyIndex::Common(0)).unwrap(),
        &[0x10, 0x11, 0x12, 0x13, 0x14, 0x15, 0x16, 0x17, 0x18, 0x19, 0x1a, 0x1b, 0x1c, 0x1d, 0x1e, 0x1f]
    );
    assert!(bag.get_key(KeyIndex::CommonN(0)).is_err());
    assert_eq!(bag.get_key(KeyIndex::CommonN(1)).unwrap(), &RANDOM_Y);
    assert!(bag.get_key(KeyIndex::Common(1)).is_err());
    assert!(KeyBag::from_string("").unwrap().get_key(KeyIndex::Generator).is_err());
    assert!(KeyBag::from_string("\n\n# only comments\n").is_ok());
}

#[test]
fn key_names_are_read_as_they_are_written() {
    for idx in [
        KeyIndex::Generator,
        KeyIndex::Slot(0x2c, KeyType::X),
        KeyIndex::Slot(0x11, KeyType::Y),
        KeyIndex::Slot(0xff, KeyType::N),
        KeyIndex::Common(0),
        KeyIndex::Common(9),
        KeyIndex::CommonN(0),
        KeyIndex::CommonN(5),
    ] {
        let line = format!("{}=000102030405060708090a0b0c0d0e0f", idx.to_string());
        let bag = KeyBag::from_string(&line).unwrap();
        assert_eq!(bag.get_key(idx).unwrap()[15], 0x0f);
    }
}

#[test]
fn key_bag_text_is_refused() {
    assert!(matches!(
        KeyBag::from_string("generator=1234"),
        Err(CytrynaError::InvalidLength { what: "key", actual: 2, expected: 16 })
    ));
    assert!(matches!(
        KeyBag::from_string("generator="),
        Err(CytrynaError::InvalidLength { what: "key", actual: 0, expected: 16 })
    ));
    assert!(matches!(
        KeyBag::from_string("generator=12599a14ff66da9f65c13ead305015c"),
        Err(CytrynaError::HexError(_))
    ));
    assert!(matches!(
        KeyBag::from_string("generator=zz599a14ff66da9f65c13ead305015c7"),
        Err(CytrynaError::HexError(_))
    ));
    assert!(matches!(
        KeyBag::from_string("generator = 12599a14ff66da9f65c13ead305015c7"),
        Err(CytrynaError::KeyIndexFail(KeyIndexParseError::InvalidKeyType(_)))
    ));
    assert!(matches!(
        KeyBag::from_string("slot0x2ckeyq=12599a14ff66da9f65c13ead305015c7"),
        Err(CytrynaError::KeyIndexFail(KeyIndexParseError::InvalidKeyXYNType(_)))
    ));
    assert!(matches!(
        KeyBag::from_string("slot0xq0keyx=12599a14ff66da9f65c13ead305015c7"),
        Err(CytrynaError::KeyIndexFail(KeyIndexParseError::NumberParseError))
    ));
    assert!(matches!(
        KeyBag::from_string("generator=12599a14ff66da9f65c13ead305015c7\nno equals sign here\n"),
        Err(CytrynaError::KeyIndexFail(KeyIndexParseError::InvalidKeyType(s))) if s == "no equals sign here"
    ));
    // the first bad line ends the reading, also where good lines follow
    assert!(KeyBag::from_string("bad\ngenerator=12599a14ff66da9f65c13ead305015c7").is_err());
}

#[test]
fn sha256_of_known_text() {
    let abc = [
        0xba, 0x78, 0x16, 0xbf, 0x8f, 0x01, 0xcf, 0xea, 0x41, 0x41, 0x40, 0xde, 0x5d, 0xae, 0x22,
        0x23, 0xb0, 0x03, 0x61, 0xa3, 0x96, 0x17, 0x7a, 0x9c, 0xb4, 0x10, 0xff, 0x61, 0xf2, 0x00,
        0x15, 0xad,
    ];
    assert_eq!(sha256(b"abc"), abc);
    assert_eq!(cytryna::hash::sha256(b"abc"), abc);
    let empty = [
        0xe3, 0xb0, 0xc4, 0x42, 0x98, 0xfc, 0x1c, 0x14, 0x9a, 0xfb, 0xf4, 0xc8, 0x99, 0x6f, 0xb9,
        0x24, 0x27, 0xae, 0x41, 0xe4, 0x64, 0x9b, 0x93, 0x4c, 0xa4, 0x95, 0x99, 0x1b, 0x78, 0x52,
        0xb8, 0x55,
    ];
    assert_eq!(sha256(b""), empty);
}

fn envelope(tag: [u8; 4], sig_size: usize, payload: &[u8]) -> Vec<u8> {
    let mut bytes = tag.to_vec();
    bytes.extend(std::iter::repeat(0xaa).take(sig_size));
    let mut issuer = [0u8; 0x40];
    issuer[..4].copy_from_slice(b"Root");
    bytes.extend_from_slice(&issuer);
    bytes.extend_from_slice(payload);
    bytes
}

#[test]
fn envelope_payload_offsets() {
    assert_eq!(SignatureType::Rsa4096Sha256.signature_size(), 0x23c);
    assert_eq!(SignatureType::Rsa2048Sha256.signature_size(), 0x13c);
    assert_eq!(SignatureType::EcdsaSha256.signature_size(), 0x7c);
    assert_eq!(SignatureType::Rsa4096Sha256.payload_offset(), 4 + 0x23c + 64);
    assert_eq!(SignatureType::Rsa2048Sha256.payload_offset(), 4 + 0x13c + 64);
    assert_eq!(SignatureType::EcdsaSha256.payload_offset(), 4 + 0x7c + 64);
    let mut payload = vec![0u8; 0x124];
    payload[0x71] = 7;
    payload[0x3f] = 0x42;
    for (tag, ty) in [
        ([0, 1, 0, 3], SignatureType::Rsa4096Sha256),
        ([0, 1, 0, 4], SignatureType::Rsa2048Sha256),
        ([0, 1, 0, 5], SignatureType::EcdsaSha256),
    ] {
        let bytes = envelope(tag, ty.signature_size(), &payload);
        let signed = SignedData::<TicketInner>::from_bytes(&bytes).unwrap();
        assert_eq!(signed.sig_type(), ty);
        assert_eq!(signed.data().key_index(), 7);
        assert_eq!(signed.key_index(), 7);
        assert_eq!(signed.title_key_raw()[0], 0x42);
        assert_eq!(signed.signature().len(), ty.signature_size());
        assert!(signed.signature().iter().all(|b| *b == 0xaa));
        assert_eq!(&signed.issuer().data()[..4], b"Root");
        assert_eq!(SignatureType::from_tag(&bytes), Some(ty));
    }
}

#[test]
fn envelope_with_unknown_tag_is_invalid_magic() {
    let payload = vec![0u8; 0x124];
    for tag in [
        [0u8, 1, 0, 2],
        [0, 1, 0, 6],
        [0, 1, 0, 0],
        [1, 1, 0, 3],
        [0, 0, 0, 4],
        [0, 1, 1, 5],
        [3, 0, 1, 0],
        [0xff, 0xff, 0xff, 0xff],
        [0, 0, 0, 0],
    ] {
        let bytes = envelope(tag, 0x23c, &payload);
        assert!(matches!(
            SignedData::<TicketInner>::from_bytes(&bytes),
            Err(CytrynaError::InvalidMagic)
        ));
        assert_eq!(SignatureType::from_tag(&bytes), None);
        // a tag alone is enough to tell
        assert!(matches!(
            SignedData::<TicketInner>::from_bytes(&tag),
            Err(CytrynaError::InvalidMagic)
        ));
    }
}

#[test]
fn envelope_that_is_too_short_is_refused() {
    assert!(matches!(SignedData::<TicketInner>::from_bytes(&[]), Err(CytrynaError::SliceTooSmall)));
    assert!(matches!(
        SignedData::<TicketInner>::from_bytes(&[0, 1, 0]),
        Err(CytrynaError::SliceTooSmall)
    ));
    assert!(matches!(
        SignedData::<TicketInner>::from_bytes(&[0, 1, 0, 4]),
        Err(CytrynaError::SliceTooSmall)
    ));
    let bytes = envelope([0, 1, 0, 4], 0x13c, &vec![0u8; 0x123]);
    assert!(matches!(
        SignedData::<TicketInner>::from_bytes(&bytes),
        Err(CytrynaError::SliceTooSmall)
    ));
    let bytes = envelope([0, 1, 0, 4], 0x13c, &vec![0u8; 0x124]);
    assert!(SignedData::<TicketInner>::from_bytes(&bytes).is_ok());
}
