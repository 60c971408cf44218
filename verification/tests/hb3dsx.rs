use cytryna::hb3dsx::{Hb3dsx, RelocationType};
use cytryna::{CytrynaError, FromBytes};

fn executable(header_size: u16, abs_count: u32, rel_count: u32) -> Vec<u8> {
    let mut bytes = vec![0u8; 0x20];
    bytes[..4].copy_from_slice(b"3DSX");
    bytes[4..6].copy_from_slice(&header_size.to_le_bytes());
    bytes[6..8].copy_from_slice(&8u16.to_le_bytes());
    bytes[8..0xc].copy_from_slice(&1u32.to_le_bytes());
    bytes[0x10..0x14].copy_from_slice(&0x10u32.to_le_bytes());
    bytes[0x14..0x18].copy_from_slice(&0x8u32.to_le_bytes());
    bytes[0x18..0x1c].copy_from_slice(&0xcu32.to_le_bytes());
    bytes[0x1c..0x20].copy_from_slice(&0x4u32.to_le_bytes());
    // the extended header, where there is one
    if header_size == 0x2c {
        bytes.extend_from_slice(&0x1000u32.to_le_bytes());
        bytes.extend_from_slice(&0x36c0u32.to_le_bytes());
        bytes.extend_from_slice(&0x5000u32.to_le_bytes());
    }
    // three relocation headers
    bytes.extend_from_slice(&abs_count.to_le_bytes());
    bytes.extend_from_slice(&rel_count.to_le_bytes());
    bytes.extend_from_slice(&[0x11; 8]);
    bytes.extend_from_slice(&[0x22; 8]);
    // code, read-only data, initialized data
    bytes.extend_from_slice(&[0xc0; 0x10]);
    bytes.extend_from_slice(&[0xd0; 0x8]);
    bytes.extend_from_slice(&[0xe0; 0x8]);
    for i in 0..(abs_count + rel_count) as u16 {
        bytes.extend_from_slice(&(i + 1).to_le_bytes());
        bytes.extend_from_slice(&(0x100 + i).to_le_bytes());
    }
    bytes
}

#[test]
fn relocations_of_the_code_are_walked() {
    for header_size in [0x20u16, 0x2c] {
        let bytes = executable(header_size, 2, 3);
        let exe = Hb3dsx::from_bytes(&bytes).unwrap();
        let header = exe.header();
        assert_eq!(header.magic.data(), b"3DSX");
        assert_eq!(header.header_size, header_size);
        assert_eq!(header.exheader_offset(), 0);
        let extra = header_size as usize - 0x20;
        assert_eq!(header.code_reloc_header_offset(), extra);
        assert_eq!(header.rodata_reloc_header_offset(), extra + 8);
        assert_eq!(header.data_reloc_header_offset(), extra + 16);
        assert_eq!(header.code_segment_offset(), extra + 24);
        assert_eq!(header.rodata_segment_offset(), extra as u64 + 24 + 0x10);
        assert_eq!(header.data_segment_offset(), extra as u64 + 24 + 0x18);
        assert_eq!(header.code_reloc_table_offset(), extra as u64 + 24 + 0x20);
        let reloc = exe.code_reloc_header();
        assert_eq!(reloc.abs_count, 2);
        assert_eq!(reloc.rel_count, 3);
        assert_eq!(reloc.table_size(), 20);
        assert_eq!(exe.rodata_reloc_header().abs_count, 0x1111_1111);
        assert_eq!(exe.data_reloc_header().rel_count, 0x2222_2222);
        let mut iter = exe.code_reloc_iter();
        for i in 0..5u16 {
            let (ty, relocation) = iter.next().unwrap();
            let expected = if i < 2 { RelocationType::Absolute } else { RelocationType::Relative };
            assert_eq!(ty, expected);
            assert_eq!(relocation.skip, i + 1);
            assert_eq!(relocation.patch, 0x100 + i);
        }
        assert!(iter.next().is_none());
        assert!(iter.next().is_none());
        match exe.exheader() {
            Some(exheader) => {
                assert_eq!(header_size, 0x2c);
                assert_eq!(exheader.smdh_offset, 0x1000);
                assert_eq!(exheader.smdh_size, 0x36c0);
                assert_eq!(exheader.romfs_offset, 0x5000);
            }
            None => assert_eq!(header_size, 0x20),
        }
    }
}

#[test]
fn executable_without_relocations() {
    let bytes = executable(0x20, 0, 0);
    let exe = Hb3dsx::from_bytes(&bytes).unwrap();
    assert!(exe.code_reloc_iter().next().is_none());
    assert_eq!(exe.data().len(), bytes.len() - 0x20);
}

#[test]
fn executable_with_wrong_magic_is_refused() {
    let mut bytes = executable(0x20, 1, 1);
    bytes[3] = b'x';
    assert!(matches!(Hb3dsx::from_bytes(&bytes), Err(CytrynaError::InvalidMagic)));
    assert!(matches!(Hb3dsx::from_bytes(&bytes[..4]), Err(CytrynaError::InvalidMagic)));
    assert!(matches!(Hb3dsx::bytes_ok(&bytes[..3]), Err(CytrynaError::SliceTooSmall)));
    bytes[3] = b'X';
    assert!(Hb3dsx::bytes_ok(&bytes[..4]).is_ok());
    assert!(matches!(Hb3dsx::from_bytes(&bytes[..0x1f]), Err(CytrynaError::SliceTooSmall)));
    assert!(Hb3dsx::from_bytes(&bytes[..0x20]).is_ok());
    assert_eq!(Hb3dsx::min_size(), 0x20);
}
