use aes::cipher::{KeyIvInit, StreamCipher};
use cytryna::crypto::{keygen_with, GlobalKeyBag, KeyBag, KeyIndex, KeyType};
use cytryna::ncch::exefs::{ExeFs, ExeFsInner};
use cytryna::ncch::romfs::RomfsHeader;
use cytryna::ncch::{
    Arm11Flags, Arm11KernelCaps, Arm11MemoryType, Exheader, Flag0, Flag1, KernelCap, KernelCapRaw,
    Ncch, NcchFlagsOptions, New3dsSystemMode, Old3dsSystemMode, ResourceLimitCategory, SyscallMask,
};
use cytryna::{CytrynaError, OwnedOrBorrowed, VecOrSlice};

const KEY_X: [u8; 16] = [0x31; 16];
const GENERATOR: [u8; 16] = [
    0x12, 0x59, 0x9a, 0x14, 0xff, 0x66, 0xda, 0x9f, 0x65, 0xc1, 0x3e, 0xad, 0x30, 0x50, 0x15, 0xc7,
];
const PROGRAM_ID: u64 = 0x0004_0000_00ab_cd00;

fn keys() -> GlobalKeyBag {
    let mut bag = KeyBag::new();
    bag.set_key(KeyIndex::Slot(0x2c, KeyType::X), KEY_X);
    bag.set_key(KeyIndex::Generator, GENERATOR);
    let mut global = GlobalKeyBag::new();
    bag.finalize(&mut global);
    global
}

fn plain_exheader(flags: u8) -> Vec<u8> {
    let mut bytes: Vec<u8> = (0..0x800u32).map(|i| (i % 251) as u8).collect();
    bytes[..8].copy_from_slice(b"testapp\0");
    bytes[0xd] = flags;
    for aci in [0x200usize, 0x600] {
        bytes[aci + 0xc] = 2;
        bytes[aci + 0x16f] = 1;
        // kernel capability descriptors
        let caps: [u32; 6] = [
            0xe000_0000 | 0x123,
            0xf000_0000 | (2 << 24) | 0b101,
            0xfc00_0000 | 0x0233,
            0xfe00_0000 | 0x200,
            0xff00_0000 | 0x0000_0105,
            0xffff_ffff,
        ];
        for (i, cap) in caps.iter().enumerate() {
            bytes[aci + 0x170 + 4 * i..aci + 0x170 + 4 * i + 4].copy_from_slice(&cap.to_le_bytes());
        }
        for i in caps.len()..0x1c {
            bytes[aci + 0x170 + 4 * i..aci + 0x170 + 4 * i + 4]
                .copy_from_slice(&0xffff_ffffu32.to_le_bytes());
        }
    }
    bytes
}

fn exheader_iv() -> [u8; 16] {
    let mut iv = [0u8; 16];
    iv[..8].copy_from_slice(&PROGRAM_ID.to_be_bytes());
    iv[8] = 1;
    iv
}

fn ctr_apply(key: &[u8; 16], iv: &[u8; 16], data: &[u8]) -> Vec<u8> {
    let mut out = data.to_vec();
    ctr::Ctr128BE::<aes::Aes128>::new(key.into(), iv.into()).apply_keystream(&mut out);
    out
}

fn exefs_bytes(files: &[(&[u8; 8], u32, u32)], data: &[u8]) -> Vec<u8> {
    let mut bytes = vec![0u8; 0x200];
    for (i, (name, offset, size)) in files.iter().enumerate() {
        bytes[0x10 * i..0x10 * i + 8].copy_from_slice(&name[..]);
        bytes[0x10 * i + 8..0x10 * i + 12].copy_from_slice(&offset.to_le_bytes());
        bytes[0x10 * i + 12..0x10 * i + 16].copy_from_slice(&size.to_le_bytes());
        bytes[0x100 + 0x20 * i..0x120 + 0x20 * i].copy_from_slice(&[i as u8 + 1; 32]);
    }
    bytes.extend_from_slice(data);
    bytes
}

fn container(no_crypto: bool, exheader: &[u8], exefs: &[u8]) -> Vec<u8> {
    let mut bytes = vec![0u8; 0x200];
    for i in 0..0x100 {
        bytes[i] = (i as u8).wrapping_mul(3).wrapping_add(1);
    }
    bytes[0x100..0x104].copy_from_slice(b"NCCH");
    bytes[0x118..0x120].copy_from_slice(&PROGRAM_ID.to_le_bytes());
    bytes[0x180..0x184].copy_from_slice(&0x400u32.to_le_bytes());
    bytes[0x188 + 7] = if no_crypto { NcchFlagsOptions::NO_CRYPTO } else { 0 };
    bytes.extend_from_slice(exheader);
    bytes.resize(0x200 + 0x800, 0);
    // the mini filesystem starts at media unit 5
    let units = (exefs.len() + 0x1ff) / 0x200;
    bytes[0x1a0..0x1a4].copy_from_slice(&5u32.to_le_bytes());
    bytes[0x1a4..0x1a8].copy_from_slice(&(units as u32).to_le_bytes());
    bytes.extend_from_slice(exefs);
    bytes.resize(0xa00 + units * 0x200, 0);
    bytes
}

#[test]
fn container_with_wrong_magic_is_refused() {
    let mut bytes = container(true, &plain_exheader(0), &exefs_bytes(&[], &[]));
    assert!(Ncch::from_slice(&bytes).is_ok());
    bytes[0x103] = b'X';
    assert!(matches!(Ncch::from_slice(&bytes), Err(CytrynaError::InvalidMagic)));
    bytes[0x100..0x104].copy_from_slice(b"ncch");
    assert!(matches!(Ncch::from_slice(&bytes), Err(CytrynaError::InvalidMagic)));
    bytes[0x100..0x104].copy_from_slice(&[0; 4]);
    assert!(matches!(Ncch::from_slice(&bytes), Err(CytrynaError::InvalidMagic)));
    // the magic decides as soon as the bytes reach it
    assert!(matches!(Ncch::from_slice(&bytes[..0x104]), Err(CytrynaError::InvalidMagic)));
    assert!(matches!(Ncch::from_slice(&bytes[..0x1ff]), Err(CytrynaError::InvalidMagic)));
    assert!(matches!(Ncch::from_slice(&bytes[..0x103]), Err(CytrynaError::SliceTooSmall)));
    bytes[0x100..0x104].copy_from_slice(b"NCCH");
    assert!(matches!(Ncch::from_slice(&bytes[..0x104]), Err(CytrynaError::SliceTooSmall)));
    assert!(matches!(Ncch::from_slice(&bytes[..0x1ff]), Err(CytrynaError::SliceTooSmall)));
    assert!(Ncch::from_slice(&bytes[..0x200]).is_ok());
}

#[test]
fn container_regions_are_counted_in_media_units() {
    let fs = exefs_bytes(&[(b"icon\0\0\0\0", 0, 4)], &[1, 2, 3, 4]);
    let mut bytes = container(true, &plain_exheader(0), &fs);
    let ncch = Ncch::from_slice(&bytes).unwrap();
    assert!(!ncch.is_encrypted());
    assert_eq!(ncch.header().program_id, PROGRAM_ID);
    assert_eq!(ncch.header().exefs_offset, 5);
    assert_eq!(ncch.flags().options.bits(), 4);
    assert_eq!(ncch.data().len(), bytes.len() - 0x200);
    let region = ncch.exefs_region().unwrap();
    assert_eq!(region.len(), 0x400);
    assert_eq!(region, &bytes[0xa00..0xe00]);
    assert_eq!(ncch.region(1, 1).unwrap(), &bytes[0x200..0x400]);
    assert_eq!(ncch.region(2, 3).unwrap(), &bytes[0x400..0xa00]);
    assert!(matches!(ncch.region(0, 1), Err(CytrynaError::MissingRegion)));
    assert!(matches!(ncch.region(1, 0), Err(CytrynaError::MissingRegion)));
    assert!(matches!(ncch.region(6, 2), Err(CytrynaError::SliceTooSmall)));
    assert!(matches!(ncch.region(u32::MAX, u32::MAX), Err(CytrynaError::SliceTooSmall)));
    assert!(matches!(ncch.plain_region(), Err(CytrynaError::MissingRegion)));
    assert!(matches!(ncch.logo_region(), Err(CytrynaError::MissingRegion)));
    assert!(matches!(ncch.romfs_region(), Err(CytrynaError::MissingRegion)));
    bytes[0x190..0x194].copy_from_slice(&6u32.to_le_bytes());
    bytes[0x194..0x198].copy_from_slice(&1u32.to_le_bytes());
    let ncch = Ncch::from_slice(&bytes).unwrap();
    assert_eq!(ncch.plain_region().unwrap(), &bytes[0xc00..0xe00]);
}

#[test]
fn plain_extended_header_is_borrowed() {
    let plain = plain_exheader(1);
    let bytes = container(true, &plain, &exefs_bytes(&[], &[]));
    let ncch = Ncch::from_slice(&bytes).unwrap();
    // no key is needed
    let header = ncch.exheader(&GlobalKeyBag::new()).unwrap();
    assert!(matches!(header, OwnedOrBorrowed::Borrowed(_)));
    let header = header.deref();
    assert_eq!(header.sci.app_title.data(), b"testapp\0");
    assert_eq!(header.sci.flags.bits(), 1);
    assert_eq!(header.sci.remaster_version, u16::from_le_bytes([plain[0xe], plain[0xf]]));
    assert_eq!(
        header.sci.text_code_set_info.addr,
        u32::from_le_bytes([plain[0x10], plain[0x11], plain[0x12], plain[0x13]])
    );
    assert_eq!(header.sci.dep_list[1].raw, u64::from_le_bytes(plain[0x48..0x50].try_into().unwrap()));
    assert_eq!(header.sci.jump_id, u64::from_le_bytes(plain[0x1c8..0x1d0].try_into().unwrap()));
    assert_eq!(header.aci.arm11_syscaps.n3ds_sysmode, New3dsSystemMode::Dev1_178Mb);
    assert_eq!(header.aci.arm11_syscaps.resource_limit_category, ResourceLimitCategory::SysApplet);
    assert_eq!(header.aci.arm11_syscaps.priority, plain[0x20f]);
    assert_eq!(header.aci.arm11_syscaps.service_access_control[2].data(), &plain[0x260..0x268]);
    assert_eq!(
        header.aci.arm11_syscaps.storage_info.access_info.bits(),
        u64::from_le_bytes(plain[0x248..0x250].try_into().unwrap())
    );
    assert_eq!(header.aci.arm9.version, plain[0x3ff]);
    assert_eq!(&header.access_desc_sig[..], &plain[0x400..0x500]);
    assert_eq!(&header.ncch_hdr_pubkey[..], &plain[0x500..0x600]);
    assert_eq!(
        header.aci_second.arm11_syscaps.core_version,
        u32::from_le_bytes(plain[0x608..0x60c].try_into().unwrap())
    );
}

#[test]
fn encrypted_extended_header_is_decrypted() {
    let plain = plain_exheader(0);
    let mut bytes = container(false, &[], &exefs_bytes(&[], &[]));
    let sig: [u8; 16] = bytes[..16].try_into().unwrap();
    let key = keygen_with(KEY_X, sig, GENERATOR);
    let cipher = ctr_apply(&key, &exheader_iv(), &plain);
    assert_ne!(cipher, plain);
    bytes[0x200..0xa00].copy_from_slice(&cipher);
    let ncch = Ncch::from_slice(&bytes).unwrap();
    assert!(ncch.is_encrypted());
    let global = keys();
    let header = ncch.exheader(&global).unwrap();
    assert!(matches!(header, OwnedOrBorrowed::Owned(_)));
    let direct = Exheader::from_bytes(&plain).unwrap();
    assert_eq!(header.deref().sci.app_title.data(), b"testapp\0");
    assert_eq!(header.deref().sci.stack_size, direct.sci.stack_size);
    assert_eq!(header.deref().aci.arm11_kerncaps.descriptors, direct.aci.arm11_kerncaps.descriptors);
    assert_eq!(&header.deref().access_desc_sig[..], &plain[0x400..0x500]);
    // without keys there is no header
    assert!(matches!(ncch.exheader(&GlobalKeyBag::new()), Err(CytrynaError::NoKeyBag)));
    let mut global = GlobalKeyBag::new();
    KeyBag::new().finalize(&mut global);
    assert!(matches!(
        ncch.exheader(&global),
        Err(CytrynaError::MissingKey(KeyIndex::Slot(0x2c, KeyType::X)))
    ));
    let mut bag = KeyBag::new();
    bag.set_key(KeyIndex::Slot(0x2c, KeyType::X), KEY_X);
    let mut global = GlobalKeyBag::new();
    bag.finalize(&mut global);
    assert!(matches!(ncch.exheader(&global), Err(CytrynaError::MissingKey(KeyIndex::Generator))));
}

#[test]
fn extended_header_that_is_missing_or_odd_is_refused() {
    let plain = plain_exheader(0);
    let mut bytes = container(true, &plain, &exefs_bytes(&[], &[]));
    bytes[0x180..0x184].copy_from_slice(&[0; 4]);
    let ncch = Ncch::from_slice(&bytes).unwrap();
    assert!(matches!(ncch.exheader(&keys()), Err(CytrynaError::MissingRegion)));
    bytes[0x180] = 1;
    let ncch = Ncch::from_slice(&bytes[..0x9ff]).unwrap();
    assert!(matches!(ncch.exheader(&keys()), Err(CytrynaError::SliceTooSmall)));
    bytes[0x200 + 0x200 + 0xc] = 4;
    let ncch = Ncch::from_slice(&bytes).unwrap();
    assert!(matches!(
        ncch.exheader(&keys()),
        Err(CytrynaError::EnumValueOutOfRange("New3dsSystemMode"))
    ));
    bytes[0x200 + 0x200 + 0xc] = 0;
    bytes[0x200 + 0x600 + 0x16f] = 9;
    let ncch = Ncch::from_slice(&bytes).unwrap();
    assert!(matches!(
        ncch.exheader(&keys()),
        Err(CytrynaError::EnumValueOutOfRange("ResourceLimitCategory"))
    ));
    assert!(matches!(
        Exheader::from_bytes(&plain[..0x7ff]),
        Err(CytrynaError::InvalidLength { what: "exheader", actual: 0x7ff, expected: 0x800 })
    ));
}

#[test]
fn mini_filesystem_of_a_container() {
    let data: Vec<u8> = (0..0x90u32).map(|i| i as u8).collect();
    let fs = exefs_bytes(&[(b".code\0\0\0", 0, 0x40), (b"icon\0\0\0\0", 0x40, 0x20)], &data);
    let bytes = container(true, &plain_exheader(0), &fs);
    let ncch = Ncch::from_slice(&bytes).unwrap();
    let exefs = ncch.exefs(&GlobalKeyBag::new()).unwrap();
    assert!(!exefs.is_compressed());
    assert!(!exefs.is_encrypted());
    let icon = exefs.file_by_name(b"icon").unwrap().unwrap();
    assert_eq!(icon.as_slice(), &data[0x40..0x60]);
    let code = exefs.file_by_name(b".code").unwrap().unwrap();
    assert_eq!(code.as_slice(), &data[..0x40]);
    // compressed code cannot be had, the other files can
    let bytes = container(true, &plain_exheader(1), &fs);
    let ncch = Ncch::from_slice(&bytes).unwrap();
    let exefs = ncch.exefs(&GlobalKeyBag::new()).unwrap();
    assert!(exefs.is_compressed());
    assert!(matches!(
        exefs.file_by_name(b".code"),
        Err(CytrynaError::NotImplemented("exefs decompression"))
    ));
    assert_eq!(exefs.file_by_name(b"icon").unwrap().unwrap().as_slice(), &data[0x40..0x60]);
    assert!(exefs.file_by_name(b"banner").unwrap().is_none());
    // a container without a mini filesystem
    let mut bytes = bytes;
    bytes[0x1a0..0x1a4].copy_from_slice(&[0; 4]);
    let ncch = Ncch::from_slice(&bytes).unwrap();
    assert!(matches!(ncch.exefs(&GlobalKeyBag::new()), Err(CytrynaError::MissingRegion)));
}

#[test]
fn file_by_name_finds_the_exact_range() {
    let data: Vec<u8> = (0..0x100u32).map(|i| (i * 5 + 1) as u8).collect();
    let bytes = exefs_bytes(
        &[
            (b"banner\0\0", 0, 0x10),
            (b"\0\0\0\0\0\0\0\0", 0, 0),
            (b"icon\0\0\0\0", 0x30, 0x55),
            (b"icon\0\0\0\0", 0x90, 0x10),
            (b"longname", 0x10, 0x20),
            (b"far\0\0\0\0\0", 0xf0, 0x11),
        ],
        &data,
    );
    let fs = ExeFs::new(false, false, &bytes).unwrap();
    let icon = fs.file_by_name(b"icon").unwrap().unwrap();
    assert!(matches!(icon, VecOrSlice::S(_)));
    assert_eq!(icon.as_slice(), &data[0x30..0x30 + 0x55]);
    assert_eq!(icon.as_slice(), &bytes[0x200 + 0x30..0x200 + 0x30 + 0x55]);
    assert_eq!(fs.file_by_name(b"icon\0\0\0\0").unwrap().unwrap().as_slice(), &data[0x30..0x85]);
    assert_eq!(fs.file_by_name(b"banner").unwrap().unwrap().as_slice(), &data[..0x10]);
    assert_eq!(fs.file_by_name(b"longname").unwrap().unwrap().as_slice(), &data[0x10..0x30]);
    // a name that is longer than eight bytes is the name of no file
    assert!(fs.file_by_name(b"longname1").unwrap().is_none());
    assert!(fs.file_by_name(b"icon\0\0\0\0\0").unwrap().is_none());
    // a name that no entry has
    assert!(fs.file_by_name(b"logo").unwrap().is_none());
    assert!(fs.file_by_name(b"ico").unwrap().is_none());
    assert!(fs.file_by_name(b"").unwrap().is_none());
    // a file that reaches beyond the data
    assert!(matches!(fs.file_by_name(b"far"), Err(CytrynaError::SliceTooSmall)));

    let inner = ExeFsInner::from_bytes(&bytes).unwrap();
    let header = inner.header();
    assert_eq!(header.file_headers().len(), 8);
    let used = header.file_headers_used();
    assert_eq!(used.len(), 5);
    assert_eq!(used[0].name().data(), b"banner\0\0");
    assert_eq!(used[1].offset(), 0x30);
    assert_eq!(used[1].size(), 0x55);
    assert!(header.file_headers()[1].is_unused());
    assert!(header.file_headers()[7].is_unused());
    assert!(!header.file_headers()[0].is_unused());
    assert_eq!(header.file_hash(2), &[3; 32]);
    let found = header.file_header_by_name(b"icon").unwrap();
    assert_eq!(found.offset(), 0x30);
    assert_eq!(inner.file_by_header(found), &data[0x30..0x85]);
    assert_eq!(fs.file_by_header(found), &data[0x30..0x85]);
    assert!(inner.try_file_by_header(used[4]).is_none());
    assert!(header.file_header_by_name(b"nothing").is_none());
    assert!(matches!(ExeFs::new(false, false, &bytes[..0x1ff]), Err(CytrynaError::SliceTooSmall)));
}

#[test]
fn entry_with_a_name_and_no_data_is_used() {
    let bytes = exefs_bytes(&[(b"empty\0\0\0", 0, 0), (b"\0\0\0\0\0\0\0\0", 4, 0)], &[1, 2, 3, 4, 5]);
    let fs = ExeFs::new(false, true, &bytes).unwrap();
    assert!(fs.is_encrypted());
    assert_eq!(fs.inner().header().file_headers_used().len(), 2);
    assert!(fs.file_by_name(b"empty").unwrap().unwrap().as_slice().is_empty());
}

#[test]
fn kernel_capabilities_are_decoded() {
    let plain = plain_exheader(0);
    let header = Exheader::from_bytes(&plain).unwrap();
    let caps = header.aci.arm11_kerncaps.decode_descriptors().unwrap();
    assert_eq!(
        caps,
        vec![
            KernelCap::InterruptInfo,
            KernelCap::EnableSyscalls(SyscallMask::from_bits((2 << 24) | 0b101)),
            KernelCap::KernelReleaseVersion { major: 2, minor: 0x33 },
            KernelCap::HandleTableSize(0x200),
            KernelCap::KernelFlags(Arm11Flags::from_bits(0x105)),
        ]
    );
    let mut descriptors = [KernelCapRaw(0xffff_ffff); 0x1c];
    descriptors[3] = KernelCapRaw(0xff80_0000 | 0x10_0000 | 0x1ec);
    descriptors[9] = KernelCapRaw(0xff80_0000 | 0x1f0);
    descriptors[10] = KernelCapRaw(0xff80_0000);
    descriptors[11] = KernelCapRaw(0xff80_0000);
    let caps = Arm11KernelCaps { descriptors }.decode_descriptors().unwrap();
    assert_eq!(
        caps,
        vec![
            KernelCap::MapMemoryRangeStart { read_only: true, start: 0x01ec_0000 },
            KernelCap::MapMemoryRangeEnd { cacheable: false, end: 0x01ef_ffff },
            KernelCap::MapMemoryRangeStart { read_only: false, start: 0 },
            KernelCap::MapMemoryRangeEnd { cacheable: false, end: 0xffff_ffff },
        ]
    );
    descriptors[20] = KernelCapRaw(0xffe0_0000);
    assert!(matches!(
        Arm11KernelCaps { descriptors }.decode_descriptors(),
        Err(CytrynaError::NotImplemented("MapIoMemoryPage"))
    ));
    assert!(Arm11KernelCaps { descriptors: [KernelCapRaw(0); 0x1c] }
        .decode_descriptors()
        .unwrap()
        .is_empty());
}

#[test]
fn bit_fields_of_the_extended_header() {
    let mask = SyscallMask::from_bits((3 << 24) | 0b1000_0000_0000_0000_0000_0101);
    assert_eq!(mask.idx(), 3);
    assert_eq!(mask.mask(), 0x80_0005);
    assert_eq!(mask.into_bits(), 0x0380_0005);
    assert!(mask.has_syscall(72));
    assert!(!mask.has_syscall(73));
    assert!(mask.has_syscall(74));
    assert!(mask.has_syscall(95));
    assert!(!mask.has_syscall(0));
    assert!(!mask.has_syscall(2));
    assert!(!mask.has_syscall(96));
    assert_eq!(mask.syscalls(), vec![72, 74, 95]);
    assert_eq!(SyscallMask::from_bits(0x0700_0001).syscalls(), vec![168]);

    let flags = Arm11Flags::from_bits(0b11_0010_1000_0101);
    assert!(flags.allow_debug());
    assert!(!flags.force_debug());
    assert!(flags.allow_non_alphanum());
    assert!(!flags.shared_page_writing());
    assert!(!flags.priviledge_priority());
    assert!(!flags.allow_main_args());
    assert!(!flags.shared_deice_memory());
    assert!(flags.runnable_on_sleep());
    assert_eq!(flags.memory_type(), Arm11MemoryType::System);
    assert!(flags.special_memory());
    assert!(flags.access_core2());
    assert_eq!(Arm11MemoryType::from_bits(1), Arm11MemoryType::Application);
    assert_eq!(Arm11MemoryType::Base.into_bits(), 3);

    let flag0 = Flag0::from_bits(0b0011_1001);
    assert_eq!(flag0.ideal_proccessor(), 1);
    assert_eq!(flag0.affinity_mask(), 2);
    assert_eq!(flag0.old3ds_system_mode(), Old3dsSystemMode::Dev2_80Mb);
    assert_eq!(Old3dsSystemMode::from_bits(5), Old3dsSystemMode::Dev4_32Mb);
    assert_eq!(Old3dsSystemMode::Prod64Mb.into_bits(), 0);
    assert_eq!(Old3dsSystemMode::Dev3_72Mb.into_bits(), 4);
    let flag1 = Flag1::from_bits(2);
    assert!(!flag1.enable_l2_cache());
    assert!(flag1.cpuspeed_804mhz());
    assert_eq!(flag1.into_bits(), 2);
}

#[test]
fn romfs_header_is_read() {
    let mut bytes = vec![0u8; 0x5c];
    bytes[..4].copy_from_slice(b"IVFC");
    bytes[4..8].copy_from_slice(&0x10000u32.to_le_bytes());
    bytes[8..0xc].copy_from_slice(&0x20u32.to_le_bytes());
    bytes[0xc..0x14].copy_from_slice(&0x1111u64.to_le_bytes());
    bytes[0x1c..0x20].copy_from_slice(&12u32.to_le_bytes());
    bytes[0x24..0x2c].copy_from_slice(&0x2222u64.to_le_bytes());
    bytes[0x44..0x4c].copy_from_slice(&0x3333u64.to_le_bytes());
    bytes[0x4c..0x50].copy_from_slice(&14u32.to_le_bytes());
    bytes[0x58..0x5c].copy_from_slice(&4u32.to_le_bytes());
    let header = RomfsHeader::from_bytes(&bytes).unwrap();
    assert_eq!(header.magic.data(), b"IVFC");
    assert_eq!(header.magic_number, 0x10000);
    assert_eq!(header.master_hash_size, 0x20);
    assert_eq!(header.lv1_logical_offset, 0x1111);
    assert_eq!(header.lv1_block_size, 12);
    assert_eq!(header.lv2_logical_offset, 0x2222);
    assert_eq!(header.lv3_hashdata_size, 0x3333);
    assert_eq!(header.lv3_block_size, 14);
    assert_eq!(header.optional_info_size, 4);
    assert!(matches!(RomfsHeader::from_bytes(&bytes[..0x5b]), Err(CytrynaError::SliceTooSmall)));
}
