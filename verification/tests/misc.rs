use cytryna::crypto::{KeyIndex, KeyIndexParseError, KeyType};
use cytryna::string::{decimal, hex_upper, SizedCString, SizedCStringError, SizedCStringUtf16};
use cytryna::titleid::{Category, MaybeTitleId, MaybeTitleIdBe, Platform, TitleId};
use cytryna::tmd::{ContentIndex, ContentInfo, ContentType};
use cytryna::{align_up, CytrynaError, OwnedOrBorrowed, VecOrSlice};

#[test]
fn align_up_rounds_to_the_next_multiple() {
    assert_eq!(align_up(0, 0x200), 0);
    assert_eq!(align_up(1, 0x200), 0x200);
    assert_eq!(align_up(0x200, 0x200), 0x200);
    assert_eq!(align_up(0x201, 0x200), 0x400);
    assert_eq!(align_up(7, 3), 9);
    assert_eq!(align_up(9, 3), 9);
    assert_eq!(align_up(u32::MAX, 1), u32::MAX);
    assert_eq!(align_up(u32::MAX - 1, u32::MAX), u32::MAX);
}

#[test]
fn title_ids_are_taken_apart() {
    let id = TitleId::from_u64(0x0004_0010_0002_1000).unwrap();
    assert_eq!(id.plat(), Platform::Ctr);
    assert_eq!(id.category().bits(), 0x10);
    assert!(id.category().contains(Category::SYSTEM));
    assert!(id.category().contains(Category::SYSTEM_APPLICATION));
    assert!(!id.category().contains(Category::DEMO));
    assert_eq!(id.id(), 0x0002_1000);
    assert_eq!(id.to_u64(), 0x0004_0010_0002_1000);
    assert!(!id.is_null());
    assert_eq!(TitleId::from_u64(0x0001_ffff_ffff_ffff).unwrap().plat(), Platform::Wii);
    assert_eq!(TitleId::from_u64(0x0003_0000_0000_0000).unwrap().plat(), Platform::Dsi);
    assert_eq!(TitleId::from_u64(0x0005_0000_0000_0000).unwrap().plat(), Platform::Wiiu);
    assert_eq!(Category::from_bits_retain(0x8000).bits(), Category::TWL);
    for bad in [0u64, 0x0002_0000_0000_0000, 0x0006_0000_0000_0000, 0xffff_0000_0000_0004, 4] {
        assert!(matches!(
            TitleId::from_u64(bad),
            Err(CytrynaError::EnumValueOutOfRange("smdh::Platform"))
        ));
        assert!(MaybeTitleId { raw: bad }.to_titleid().is_err());
        assert!(MaybeTitleIdBe { raw: bad }.to_titleid().is_err());
    }
    let maybe = MaybeTitleIdBe { raw: 0x0004_0000_0012_3400 };
    assert_eq!(maybe.to_bytes(), [0, 4, 0, 0, 0, 0x12, 0x34, 0]);
    assert_eq!(maybe.to_le(), MaybeTitleId { raw: 0x0004_0000_0012_3400 });
    assert_eq!(maybe.to_titleid().unwrap(), maybe.to_le().to_titleid().unwrap());
    assert_eq!(Platform::Dsi.code(), 3);
    assert_eq!(Platform::from_code(5), Some(Platform::Wiiu));
    assert_eq!(Platform::from_code(2), None);
}

#[test]
fn fixed_width_text() {
    let text = SizedCString(*b"CTR-P-AB");
    let same: SizedCString<8> = (*b"CTR-P-AB").into();
    assert_eq!(same.data(), text.data());
    assert_eq!("slot0x11keyy".parse::<KeyIndex>().unwrap(), KeyIndex::Slot(0x11, KeyType::Y));
    assert!("slot0x11".parse::<KeyIndex>().is_err());
    assert_eq!(text.as_str().unwrap(), "CTR-P-AB");
    assert_eq!(text.to_string_lossy(), "CTR-P-AB");
    assert_eq!(text.data(), b"CTR-P-AB");
    assert!(!text.is_zero());
    assert!(SizedCString([0u8; 4]).is_zero());
    assert!(!SizedCString([0u8, 0, 0, 1]).is_zero());
    let odd = SizedCString([b'a', 0xff, b'b']);
    assert!(odd.as_str().is_err());
    assert_eq!(odd.to_string_lossy(), "a\u{fffd}b");
    assert_eq!(SizedCString([0xe2, 0x82, 0xac]).as_str().unwrap(), "\u{20ac}");

    let wide = SizedCStringUtf16::<8>::try_from_str("h\u{e9}\u{1f600}").unwrap();
    assert_eq!(wide.data(), &[0x68, 0xe9, 0xd83d, 0xde00, 0, 0, 0, 0]);
    assert_eq!(wide.to_string().unwrap(), "h\u{e9}\u{1f600}\0\0\0\0");
    assert_eq!(wide.to_string_lossy(), "h\u{e9}\u{1f600}\0\0\0\0");
    assert!(!wide.is_zero());
    assert!(SizedCStringUtf16::<3>::try_from_str("").unwrap().is_zero());
    assert!(matches!(SizedCStringUtf16::<3>::try_from_str("abcd"), Err(SizedCStringError::TooBig)));
    assert!(SizedCStringUtf16::<3>::try_from_str("abc").is_ok());
    let lone = SizedCStringUtf16 { data: [0x61, 0xd800, 0x62] };
    assert!(lone.to_string().is_err());
    assert_eq!(lone.to_string_lossy(), "a\u{fffd}b");
}

#[test]
fn numbers_are_written() {
    assert_eq!(decimal(0), "0");
    assert_eq!(decimal(7), "7");
    assert_eq!(decimal(10), "10");
    assert_eq!(decimal(16), "16");
    assert_eq!(decimal(1234567890), "1234567890");
    assert_eq!(decimal(usize::MAX), usize::MAX.to_string());
    assert_eq!(hex_upper(0), "0");
    assert_eq!(hex_upper(0xa), "A");
    assert_eq!(hex_upper(0x10), "10");
    assert_eq!(hex_upper(0x2c), "2C");
    assert_eq!(hex_upper(0xff), "FF");
}

#[test]
fn errors_say_what_went_wrong() {
    assert_eq!(CytrynaError::InvalidMagic.message(), "Invalid magic bytes");
    assert_eq!(CytrynaError::MissingRegion.message(), "Missing region");
    assert_eq!(CytrynaError::InvalidHeaderSize.message(), "Invalid size of header");
    assert_eq!(CytrynaError::InvalidHash.message(), "Invalid hash");
    assert_eq!(CytrynaError::SignatureCorrupted.message(), "Signature corrupted/forged");
    assert_eq!(CytrynaError::InvalidRegionPosition.message(), "Invalid region position");
    assert_eq!(CytrynaError::UnsupportedHeaderVersion.message(), "Unsupported version of header");
    assert_eq!(
        CytrynaError::MissingKey(KeyIndex::Slot(0x2c, KeyType::X)).message(),
        "Missing slot0x2CKeyX key"
    );
    assert_eq!(CytrynaError::MissingKey(KeyIndex::CommonN(3)).message(), "Missing common3N key");
    assert_eq!(CytrynaError::NoKeyBag.message(), "Uninitialized keybag");
    assert_eq!(
        CytrynaError::EnumValueOutOfRange("ContentIndex").message(),
        "Value out of range for ContentIndex enum"
    );
    assert_eq!(CytrynaError::SliceTooSmall.message(), "Byte slice passed is too small");
    assert_eq!(
        CytrynaError::InvalidLength { what: "key", actual: 15, expected: 16 }.message(),
        "Invalid length of key: 15 (expected 16)"
    );
    assert_eq!(
        CytrynaError::KeyIndexFail(KeyIndexParseError::NumberParseError).message(),
        "Failed to parse keyindex"
    );
    assert_eq!(CytrynaError::BadAlign.message(), "Incorrect alignment");
    assert_eq!(
        CytrynaError::NotImplemented("exefs decompression").message(),
        "Not implemented: exefs decompression"
    );
    assert_eq!(
        CytrynaError::HexError(hex::FromHexError::OddLength).message(),
        "Failed to decode hex string"
    );
    assert_eq!(
        CytrynaError::StreamCrypt(ctr::cipher::StreamCipherError).message(),
        "Failed to stream-encrypt/decrypt data"
    );
    assert_eq!(KeyIndexParseError::NumberParseError.message(), "Failed to parse a hex number");
    assert_eq!(
        KeyIndexParseError::InvalidKeyType("abc".to_string()).message(),
        "Invalid key type \"abc\""
    );
    assert_eq!(
        KeyIndexParseError::InvalidKeyXYNType("keyq".to_string()).message(),
        "Invalid X/Y/Z key type \"keyq\""
    );
}

#[test]
fn owned_and_borrowed_values() {
    let value = 5u32;
    assert_eq!(*OwnedOrBorrowed::Borrowed(&value).deref(), 5);
    assert_eq!(*OwnedOrBorrowed::Owned(Box::new(6u32)).deref(), 6);
    let bytes = [1u8, 2, 3];
    assert_eq!(VecOrSlice::S(&bytes[..]).as_slice(), &[1, 2, 3]);
    assert_eq!(VecOrSlice::V(vec![4u8, 5]).as_slice(), &[4, 5]);
}

#[test]
fn content_records() {
    assert_eq!(ContentIndex::from_code(0), Some(ContentIndex::Main));
    assert_eq!(ContentIndex::from_code(2), Some(ContentIndex::Dlp));
    assert_eq!(ContentIndex::from_code(3), None);
    assert_eq!(ContentIndex::Manual.code(), 1);
    assert!(ContentType::from_bits_retain(0x8003).contains(ContentType::SHARED | ContentType::DISC));
    assert!(ContentInfo { idx: 1, cmd_count: 0, hash: [0; 32] }.is_nil());
    assert!(!ContentInfo { idx: 0, cmd_count: 1, hash: [0; 32] }.is_nil());
    let mut hash = [0; 32];
    hash[31] = 1;
    assert!(!ContentInfo { idx: 0, cmd_count: 0, hash }.is_nil());
}
