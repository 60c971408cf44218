use aes::cipher::block_padding::NoPadding;
use aes::cipher::{BlockDecryptMut, BlockEncryptMut, KeyIvInit};
use cytryna::cia::{align, Cia, MetaRegion};
use cytryna::crypto::{GlobalKeyBag, KeyBag, KeyIndex};
use cytryna::titleid::Platform;
use cytryna::tmd::{ContentIndex, ContentType, Tmd};
use cytryna::{CytrynaError, FromBytes};

const COMMON_KEY: [u8; 16] = [
    0x64, 0xc5, 0xfd, 0x55, 0xdd, 0x3a, 0xd9, 0x88, 0x32, 0x5b, 0xaa, 0xec, 0x52, 0x43, 0xdb, 0x98,
];
const TITLE_KEY: [u8; 16] = [
    0x00, 0x11, 0x22, 0x33, 0x44, 0x55, 0x66, 0x77, 0x88, 0x99, 0xaa, 0xbb, 0xcc, 0xdd, 0xee, 0xff,
];
const TITLE_ID: u64 = 0x0004_0000_0012_3400;

fn cbc_encrypt(key: &[u8; 16], iv: &[u8; 16], plain: &[u8]) -> Vec<u8> {
    cbc::Encryptor::<aes::Aes128>::new(key.into(), iv.into())
        .encrypt_padded_vec_mut::<NoPadding>(plain)
}

fn cbc_decrypt(key: &[u8; 16], iv: &[u8; 16], data: &[u8]) -> Vec<u8> {
    cbc::Decryptor::<aes::Aes128>::new(key.into(), iv.into())
        .decrypt_padded_vec_mut::<NoPadding>(data)
        .unwrap()
}

fn round_up(n: usize) -> usize {
    (n + 0x3f) / 0x40 * 0x40
}

fn title_iv() -> [u8; 16] {
    let mut iv = [0u8; 16];
    iv[..8].copy_from_slice(&TITLE_ID.to_be_bytes());
    iv
}

fn ticket(tag: [u8; 4], sig_size: usize, key_index: u8) -> Vec<u8> {
    let mut bytes = tag.to_vec();
    bytes.extend(std::iter::repeat(0x5a).take(sig_size + 0x40));
    let mut data = vec![0u8; 0x124];
    let wrapped = cbc_encrypt(&COMMON_KEY, &title_iv(), &TITLE_KEY);
    data[0x3f..0x4f].copy_from_slice(&wrapped);
    data[0x5c..0x64].copy_from_slice(&TITLE_ID.to_be_bytes());
    data[0x71] = key_index;
    bytes.extend_from_slice(&data);
    bytes
}

struct Chunk {
    id: u32,
    idx: u8,
    ty: u16,
    size: u64,
}

fn tmd(tag: [u8; 4], sig_size: usize, declared: u16, chunks: &[Chunk]) -> Vec<u8> {
    let mut bytes = tag.to_vec();
    bytes.extend(std::iter::repeat(0xa5).take(sig_size + 0x40));
    let mut data = vec![0u8; 0x984];
    data[0xc..0x14].copy_from_slice(&TITLE_ID.to_be_bytes());
    data[0x5e..0x60].copy_from_slice(&declared.to_be_bytes());
    for chunk in chunks {
        let mut record = vec![0u8; 0x30];
        record[..4].copy_from_slice(&chunk.id.to_be_bytes());
        record[5] = chunk.idx;
        record[6..8].copy_from_slice(&chunk.ty.to_be_bytes());
        record[8..16].copy_from_slice(&chunk.size.to_be_bytes());
        record[16..].copy_from_slice(&[chunk.id as u8; 32]);
        data.extend_from_slice(&record);
    }
    bytes.extend_from_slice(&data);
    bytes
}

fn package(cert: &[u8], ticket: &[u8], tmd: &[u8], content: &[u8], meta: &[u8]) -> Vec<u8> {
    let mut bytes = vec![0u8; 0x2040];
    bytes[0..4].copy_from_slice(&0x2020u32.to_le_bytes());
    bytes[4..6].copy_from_slice(&1u16.to_le_bytes());
    bytes[6..8].copy_from_slice(&2u16.to_le_bytes());
    bytes[8..0xc].copy_from_slice(&(cert.len() as u32).to_le_bytes());
    bytes[0xc..0x10].copy_from_slice(&(ticket.len() as u32).to_le_bytes());
    bytes[0x10..0x14].copy_from_slice(&(tmd.len() as u32).to_le_bytes());
    bytes[0x14..0x18].copy_from_slice(&(meta.len() as u32).to_le_bytes());
    bytes[0x18..0x20].copy_from_slice(&(content.len() as u64).to_le_bytes());
    bytes[0x20] = 0x80;
    for region in [cert, ticket, tmd, content, meta] {
        bytes.extend_from_slice(region);
        bytes.resize(round_up(bytes.len()), 0);
    }
    bytes
}

fn keys() -> GlobalKeyBag {
    let mut bag = KeyBag::new();
    bag.set_key(KeyIndex::CommonN(1), COMMON_KEY);
    let mut global = GlobalKeyBag::new();
    bag.finalize(&mut global);
    global
}

const RSA2048: [u8; 4] = [0, 1, 0, 4];

#[test]
fn package_with_one_plain_content() {
    let plaintext: Vec<u8> = (0..0x50u32).map(|i| (i * 7 + 3) as u8).collect();
    let chunks = [Chunk { id: 9, idx: 0, ty: 0, size: plaintext.len() as u64 }];
    let bytes = package(
        &[0xcc; 0x21],
        &ticket(RSA2048, 0x13c, 1),
        &tmd(RSA2048, 0x13c, 1, &chunks),
        &plaintext,
        &[],
    );
    let global = keys();
    let cia = Cia::from_bytes(&bytes).unwrap();
    assert!(cia.looks_ok());
    assert_eq!(cia.header().hdr_size(), 0x2020);
    assert_eq!(cia.header().ty(), 1);
    assert_eq!(cia.header().version(), 2);
    assert_eq!(cia.header().cert_size(), 0x21);
    assert_eq!(cia.header().ticket_size(), 0x180 + 0x124);
    assert_eq!(cia.header().tmd_size(), 0x180 + 0x984 + 0x30);
    assert_eq!(cia.header().meta_size(), 0);
    assert_eq!(cia.header().content_size(), 0x50);
    assert_eq!(cia.header().content_index().len(), 0x2000);
    assert_eq!(cia.header().content_index()[0], 0x80);
    assert_eq!(cia.data().len(), bytes.len() - 0x2040);

    let cert = cia.cert_chain_region();
    assert_eq!(cert.len(), 0x40);
    assert_eq!(&cert[..0x21], &[0xcc; 0x21]);
    assert!(cert[0x21..].iter().all(|b| *b == 0));

    let mut iter = cia.content_region(&global).unwrap();
    let first = iter.next().unwrap();
    assert_eq!(first.data(), &plaintext[..]);
    assert_eq!(first.idx(), ContentIndex::Main);
    assert!(iter.next().is_none());
    assert!(iter.next().is_none());

    let ticket = cia.ticket_region().unwrap();
    assert_eq!(ticket.title_key(&global).unwrap(), TITLE_KEY);
    assert_eq!(ticket.title_key(&global).unwrap(), TITLE_KEY);
    assert_eq!(cia.ticket_region().unwrap().title_key(&global).unwrap(), TITLE_KEY);
    assert_eq!(ticket.key_index(), 1);
    assert_eq!(cbc_decrypt(&COMMON_KEY, &title_iv(), &ticket.title_key_raw()), TITLE_KEY);
    assert_ne!(ticket.title_key_raw(), TITLE_KEY);
    assert_eq!(ticket.data().title_id().raw, TITLE_ID);
    assert_eq!(ticket.data().title_id().to_bytes(), TITLE_ID.to_be_bytes());

    assert!(cia.meta_region().is_none());
}

#[test]
fn plain_content_is_the_same_under_any_key() {
    let plaintext: Vec<u8> = (0..0x33u32).map(|i| (i ^ 0x5c) as u8).collect();
    let chunks = [Chunk { id: 1, idx: 1, ty: ContentType::OPTIONAL, size: plaintext.len() as u64 }];
    let bytes = package(
        &[],
        &ticket(RSA2048, 0x13c, 1),
        &tmd(RSA2048, 0x13c, 1, &chunks),
        &plaintext,
        &[],
    );
    let cia = Cia::from_bytes(&bytes).unwrap();
    let first = cia.content_region(&keys()).unwrap().next().unwrap();
    assert_eq!(first.data(), &plaintext[..]);
    assert_eq!(first.idx(), ContentIndex::Manual);
    // another common key gives another title key and the same bytes
    let mut other = KeyBag::new();
    other.set_key(KeyIndex::CommonN(1), [0x77; 16]);
    let mut global = GlobalKeyBag::new();
    other.finalize(&mut global);
    assert_ne!(cia.ticket_region().unwrap().title_key(&global).unwrap(), TITLE_KEY);
    let again = cia.content_region(&global).unwrap().next().unwrap();
    assert_eq!(again.data(), first.data());
    // and they are the bytes of the range itself
    let at = 0x2040 + round_up(0x180 + 0x124) + round_up(0x180 + 0x984 + 0x30);
    assert_eq!(first.data(), &bytes[at..at + plaintext.len()]);
}

#[test]
fn encrypted_contents_are_decrypted_one_after_another() {
    let first_plain: Vec<u8> = (0..0x40u32).map(|i| (i * 3) as u8).collect();
    let second_plain = vec![0x21u8; 0x20];
    let third_plain: Vec<u8> = (0..0x30u32).map(|i| (255 - i) as u8).collect();
    let mut iv = [0u8; 16];
    let mut content = cbc_encrypt(&TITLE_KEY, &iv, &first_plain);
    content.extend_from_slice(&second_plain);
    iv[0] = 2;
    content.extend_from_slice(&cbc_encrypt(&TITLE_KEY, &iv, &third_plain));
    let chunks = [
        Chunk { id: 0, idx: 0, ty: ContentType::ENCRYPTED, size: 0x40 },
        Chunk { id: 1, idx: 1, ty: ContentType::SHARED, size: 0x20 },
        Chunk { id: 2, idx: 2, ty: ContentType::ENCRYPTED | ContentType::DISC, size: 0x30 },
    ];
    let bytes = package(
        &[1; 0x40],
        &ticket([0, 1, 0, 3], 0x23c, 1),
        &tmd([0, 1, 0, 5], 0x7c, 3, &chunks),
        &content,
        &[],
    );
    let cia = Cia::from_bytes(&bytes).unwrap();
    let global = keys();
    let mut iter = cia.content_region(&global).unwrap();
    let first = iter.next().unwrap();
    assert_eq!(first.data(), &first_plain[..]);
    assert_eq!(first.data().len(), 0x40);
    assert_ne!(first.data(), &content[..0x40]);
    assert_eq!(first.idx(), ContentIndex::Main);
    let second = iter.next().unwrap();
    assert_eq!(second.data(), &second_plain[..]);
    assert_eq!(second.idx(), ContentIndex::Manual);
    let third = iter.next().unwrap();
    assert_eq!(third.data(), &third_plain[..]);
    assert_eq!(third.idx(), ContentIndex::Dlp);
    assert!(iter.next().is_none());
}

#[test]
fn content_that_cannot_be_read_ends_the_walk() {
    // an encrypted content that is no whole number of blocks
    let chunks = [Chunk { id: 0, idx: 0, ty: ContentType::ENCRYPTED, size: 0x21 }];
    let bytes = package(
        &[],
        &ticket(RSA2048, 0x13c, 1),
        &tmd(RSA2048, 0x13c, 1, &chunks),
        &[0u8; 0x40],
        &[],
    );
    let cia = Cia::from_bytes(&bytes).unwrap();
    let mut iter = cia.content_region(&keys()).unwrap();
    assert!(iter.next().is_none());
    assert!(iter.next().is_none());
    // a content that reaches beyond the contents
    let chunks = [Chunk { id: 0, idx: 0, ty: 0, size: 0x41 }];
    let bytes = package(
        &[],
        &ticket(RSA2048, 0x13c, 1),
        &tmd(RSA2048, 0x13c, 1, &chunks),
        &[0u8; 0x40],
        &[],
    );
    let cia = Cia::from_bytes(&bytes).unwrap();
    assert!(cia.content_region(&keys()).unwrap().next().is_none());
}

#[test]
fn chunk_table_is_as_long_as_declared() {
    for count in [0usize, 1, 2, 5, 64] {
        let chunks: Vec<Chunk> = (0..count)
            .map(|i| Chunk { id: i as u32 + 100, idx: (i % 3) as u8, ty: 0x4001, size: i as u64 * 0x10 })
            .collect();
        let bytes = tmd(RSA2048, 0x13c, count as u16, &chunks);
        let tmd = Tmd::from_bytes(&bytes).unwrap();
        assert_eq!(tmd.content_count() as usize, count);
        assert_eq!(tmd.content_chunks().len(), count);
        assert_eq!(tmd.data().content_chunks().len(), count);
        for (i, chunk) in tmd.content_chunks().iter().enumerate() {
            assert_eq!(chunk.id(), i as u32 + 100);
            assert_eq!(chunk.idx().code(), (i % 3) as u8);
            assert_eq!(chunk.ty().bits(), 0x4001);
            assert!(chunk.ty().contains(ContentType::ENCRYPTED));
            assert!(chunk.ty().contains(ContentType::OPTIONAL));
            assert!(!chunk.ty().contains(ContentType::SHARED));
            assert_eq!(chunk.size(), i as u64 * 0x10);
            assert_eq!(chunk.hash(), &[i as u8 + 100; 32]);
            assert!(!chunk.is_nil());
        }
        assert_eq!(tmd.title_id().unwrap().to_u64(), TITLE_ID);
        assert_eq!(tmd.title_id().unwrap().plat(), Platform::Ctr);
    }
}

#[test]
fn chunk_table_beyond_the_metadata_is_refused() {
    let chunks = [Chunk { id: 0, idx: 0, ty: 0, size: 0 }];
    // two chunks declared, one present
    let bytes = tmd(RSA2048, 0x13c, 2, &chunks);
    assert!(matches!(Tmd::from_bytes(&bytes), Err(CytrynaError::SliceTooSmall)));
    // a chunk with an index that does not exist
    let chunks = [Chunk { id: 0, idx: 0, ty: 0, size: 0 }, Chunk { id: 0, idx: 3, ty: 0, size: 0 }];
    let bytes = tmd(RSA2048, 0x13c, 2, &chunks);
    assert!(matches!(
        Tmd::from_bytes(&bytes),
        Err(CytrynaError::EnumValueOutOfRange("ContentIndex"))
    ));
    // the same chunk does no harm where it is not declared
    let bytes = tmd(RSA2048, 0x13c, 1, &chunks);
    let tmd = Tmd::from_bytes(&bytes).unwrap();
    assert_eq!(tmd.content_chunks().len(), 1);
    assert!(tmd.content_chunks()[0].is_nil());
}

#[test]
fn region_sizes_are_rounded_up_to_64() {
    assert_eq!(align(0), 0);
    assert_eq!(align(1), 0x40);
    assert_eq!(align(0x3f), 0x40);
    assert_eq!(align(0x40), 0x40);
    assert_eq!(align(0x41), 0x80);
    assert_eq!(align(0x2020), 0x2040);
    assert_eq!(align(0xffff_ffc0), 0xffff_ffc0);
    if usize::BITS >= 64 {
        assert_eq!(align(0xffff_ffc1) as u64, 0x1_0000_0000);
        assert_eq!(align(u32::MAX) as u64, 0x1_0000_0000);
    }
    for what in [0u32, 1, 63, 64, 65, 0x2020, 0x1234_5678, 0xffff_ff00] {
        let r = align(what);
        assert_eq!(r, (what as usize + 63) / 64 * 64);
        assert_eq!(r % 0x40, 0);
        assert!(r >= what as usize && r - (what as usize) < 0x40);
        assert_eq!(align(r as u32), r);
    }
    for (cert, ticket, tmd) in [(0u32, 0u32, 0u32), (1, 2, 3), (0xa00, 0x350, 0xb34), (63, 64, 65)] {
        assert_eq!((align(cert) + align(ticket) + align(tmd)) % 64, 0);
    }
}

#[test]
fn package_with_wrong_header_size_is_refused() {
    let mut bytes = package(&[], &ticket(RSA2048, 0x13c, 1), &tmd(RSA2048, 0x13c, 0, &[]), &[], &[]);
    assert!(Cia::from_bytes(&bytes).is_ok());
    for wrong in [0u32, 0x2019, 0x2021, 0x2040, 0x2020_0000, u32::MAX] {
        bytes[0..4].copy_from_slice(&wrong.to_le_bytes());
        assert!(matches!(Cia::from_bytes(&bytes), Err(CytrynaError::InvalidHeaderSize)));
        assert!(matches!(Cia::bytes_ok(&bytes), Err(CytrynaError::InvalidHeaderSize)));
    }
    // the size field decides before the length does
    for len in [4usize, 5, 0x20, 0x201f, 0x2020, 0x2040] {
        bytes[0..4].copy_from_slice(&0x2021u32.to_le_bytes());
        assert!(matches!(Cia::bytes_ok(&bytes[..len]), Err(CytrynaError::InvalidHeaderSize)));
        assert!(matches!(Cia::from_bytes(&bytes[..len]), Err(CytrynaError::InvalidHeaderSize)));
        bytes[0..4].copy_from_slice(&0x2020u32.to_le_bytes());
        assert!(Cia::bytes_ok(&bytes[..len]).is_ok());
        assert_eq!(Cia::from_bytes(&bytes[..len]).is_ok(), len >= 0x2020);
    }
    for len in 0..4 {
        assert!(matches!(Cia::bytes_ok(&bytes[..len]), Err(CytrynaError::SliceTooSmall)));
    }
    // no later field is read
    let mut other = bytes.clone();
    for b in other[4..].iter_mut() {
        *b = 0xff;
    }
    assert!(Cia::bytes_ok(&other).is_ok());
    bytes[0..4].copy_from_slice(&0x2020u32.to_le_bytes());
    assert!(matches!(Cia::from_bytes(&bytes[..0x201f]), Err(CytrynaError::SliceTooSmall)));
    assert!(matches!(Cia::from_bytes(&[]), Err(CytrynaError::SliceTooSmall)));
    assert_eq!(Cia::min_size(), 0x2020);
    // a bare header is a package without regions
    let cia = Cia::from_bytes(&bytes[..0x2020]).unwrap();
    assert!(cia.data().is_empty());
    assert!(matches!(cia.ticket_region(), Err(CytrynaError::SliceTooSmall)));
}

#[test]
fn package_regions_fail_each_for_its_own_reason() {
    let good_ticket = ticket(RSA2048, 0x13c, 1);
    let good_tmd = tmd(RSA2048, 0x13c, 0, &[]);
    let global = keys();
    // a ticket with an unknown signature tag
    let bytes = package(&[], &ticket([0, 1, 0, 9], 0x13c, 1), &good_tmd, &[], &[]);
    let cia = Cia::from_bytes(&bytes).unwrap();
    assert!(matches!(cia.ticket_region(), Err(CytrynaError::InvalidMagic)));
    assert!(matches!(cia.content_region(&global), Err(CytrynaError::InvalidMagic)));
    assert!(cia.tmd_region().is_ok());
    // a ticket that names a common key that is not there
    let bytes = package(&[], &ticket(RSA2048, 0x13c, 4), &good_tmd, &[], &[]);
    let cia = Cia::from_bytes(&bytes).unwrap();
    assert!(matches!(
        cia.content_region(&global),
        Err(CytrynaError::MissingKey(KeyIndex::CommonN(4)))
    ));
    assert!(matches!(
        cia.ticket_region().unwrap().title_key(&global),
        Err(CytrynaError::MissingKey(KeyIndex::CommonN(4)))
    ));
    // no key store at all
    assert!(matches!(cia.content_region(&GlobalKeyBag::new()), Err(CytrynaError::NoKeyBag)));
    // title metadata that is cut short
    let bytes = package(&[], &good_ticket, &good_tmd[..0x200], &[], &[]);
    let cia = Cia::from_bytes(&bytes).unwrap();
    assert!(matches!(cia.tmd_region(), Err(CytrynaError::SliceTooSmall)));
    assert!(matches!(cia.content_region(&global), Err(CytrynaError::SliceTooSmall)));
    // contents that the package does not hold
    let mut bytes = package(&[], &good_ticket, &good_tmd, &[0; 0x80], &[]);
    let len = bytes.len();
    bytes.truncate(len - 0x40);
    let cia = Cia::from_bytes(&bytes).unwrap();
    assert!(cia.ticket_region().is_ok());
    assert!(cia.tmd_region().is_ok());
    assert!(matches!(cia.content_region(&global), Err(CytrynaError::SliceTooSmall)));
}

#[test]
fn meta_region_lists_dependencies() {
    let mut meta = vec![0u8; 0x3ac0];
    let ids: [u64; 5] = [
        0x0004_0030_0000_8f02,
        0,
        0x0005_0000_1234_5678,
        0x0002_0000_0000_0001,
        0x0001_0000_0000_0001,
    ];
    for (i, id) in ids.iter().enumerate() {
        meta[8 * i..8 * i + 8].copy_from_slice(&id.to_le_bytes());
    }
    meta[0x300..0x304].copy_from_slice(&2u32.to_le_bytes());
    meta[0x400..0x404].copy_from_slice(b"SMDH");
    let bytes = package(
        &[],
        &ticket(RSA2048, 0x13c, 1),
        &tmd(RSA2048, 0x13c, 0, &[]),
        &[9; 0x10],
        &meta,
    );
    let cia = Cia::from_bytes(&bytes).unwrap();
    assert_eq!(cia.header().meta_size(), 0x3ac0);
    let region = cia.meta_region().unwrap();
    assert_eq!(region.core_version(), 2);
    let all = region.dependencies();
    assert_eq!(all.len(), 0x30);
    assert_eq!(all[0].raw, ids[0]);
    assert_eq!(all[2].raw, ids[2]);
    assert_eq!(all[5].raw, 0);
    let valid = region.dependencies_iter();
    assert_eq!(valid.len(), 3);
    assert_eq!(valid[0].to_u64(), ids[0]);
    assert_eq!(valid[0].plat(), Platform::Ctr);
    assert_eq!(valid[0].category().bits(), 0x30);
    assert_eq!(valid[0].id(), 0x8f02);
    assert_eq!(valid[1].to_u64(), ids[2]);
    assert_eq!(valid[1].plat(), Platform::Wiiu);
    assert_eq!(valid[2].to_u64(), ids[4]);
    assert_eq!(valid[2].plat(), Platform::Wii);
    assert_eq!(region.icon_bytes().len(), 0x36c0);
    assert!(region.icon().is_ok());
    assert!(matches!(
        MetaRegion::from_bytes(&meta[1..]),
        Err(CytrynaError::InvalidLength { what: "meta region", actual: 0x3abf, expected: 0x3ac0 })
    ));
    let mut meta = meta;
    meta[0x400] = b'X';
    let region = MetaRegion::from_bytes(&meta).unwrap();
    assert!(matches!(region.icon(), Err(CytrynaError::InvalidMagic)));
}

#[test]
fn ticket_and_metadata_fields_are_read_where_they_stand() {
    let mut ticket_bytes = ticket(RSA2048, 0x13c, 1);
    let data_at = 0x180;
    ticket_bytes[data_at..data_at + 0x3c].copy_from_slice(&[0xec; 0x3c]);
    ticket_bytes[data_at + 0x3c] = 1;
    ticket_bytes[data_at + 0x50..data_at + 0x58].copy_from_slice(&0x1122_3344_5566_7788u64.to_be_bytes());
    ticket_bytes[data_at + 0x58..data_at + 0x5c].copy_from_slice(&0xdead_beefu32.to_be_bytes());
    ticket_bytes[data_at + 0x66..data_at + 0x68].copy_from_slice(&0x0410u16.to_be_bytes());
    ticket_bytes[data_at + 0x70] = 3;
    ticket_bytes[data_at + 0xa1] = 9;
    ticket_bytes[data_at + 0xe4..data_at + 0x124].copy_from_slice(&[0x11; 0x40]);
    ticket_bytes.extend_from_slice(&[7, 8, 9]);
    let ticket = cytryna::ticket::Ticket::from_bytes(&ticket_bytes).unwrap();
    let data = ticket.data();
    assert_eq!(data.ecc_pubkey(), [0xec; 0x3c]);
    assert_eq!(data.version(), 1);
    assert_eq!(data.ticket_id(), 0x1122_3344_5566_7788);
    assert_eq!(data.console_id(), 0xdead_beef);
    assert_eq!(data.ticket_title_version(), 0x0410);
    assert_eq!(data.license_type(), 3);
    assert_eq!(data.audit(), 9);
    assert_eq!(data.limits(), [0x11; 0x40]);
    assert_eq!(data.content_index(), &[7, 8, 9]);
    assert_eq!(data.title_id().to_titleid().unwrap().to_u64(), TITLE_ID);

    let mut tmd_bytes = tmd(RSA2048, 0x13c, 0, &[]);
    tmd_bytes[data_at] = 1;
    tmd_bytes[data_at + 0x5c..data_at + 0x5e].copy_from_slice(&0x0820u16.to_be_bytes());
    tmd_bytes[data_at + 0x60..data_at + 0x62].copy_from_slice(&2u16.to_be_bytes());
    let info_at = data_at + 0x84 + 0x24 * 5;
    tmd_bytes[info_at + 1] = 2;
    tmd_bytes[info_at + 2..info_at + 4].copy_from_slice(&0x0103u16.to_be_bytes());
    tmd_bytes[info_at + 4..info_at + 0x24].copy_from_slice(&[0x44; 0x20]);
    let tmd = Tmd::from_bytes(&tmd_bytes).unwrap();
    assert_eq!(tmd.data().version(), 1);
    assert_eq!(tmd.data().title_version(), 0x0820);
    assert_eq!(tmd.data().boot_content(), 2);
    assert_eq!(tmd.data().title_id().raw, TITLE_ID);
    let info = tmd.data().content_info(5);
    assert_eq!(info.idx, 2);
    assert_eq!(info.cmd_count, 0x0103);
    assert_eq!(info.hash, [0x44; 0x20]);
    assert!(!info.is_nil());
    assert!(tmd.data().content_info(0).is_nil());
    assert!(tmd.data().content_info(63).is_nil());
}
