use aes::cipher::generic_array::GenericArray;
use aes::cipher::{BlockEncrypt, KeyInit};
use aes::Aes128;
use nca::{
    get_key_area_key, get_master_key_revision, keys_well_formed, Aes128Key, AesXtsKey,
    ContentType, CryptoType, Error, FsType, KeyName, KeyType, Keys, Nca, NcaFormat, TitleId,
    Unsupported, Validation,
};
use xts_mode::Xts128;

const HEADER_KEY: [u8; 32] = [0x33; 32];
const KAK: [u8; 16] = [0x55; 16];
const CTR_KEY: [u8; 16] = [0xAA; 16];
const XTS_LO: [u8; 16] = [0xBB; 16];
const XTS_HI: [u8; 16] = [0xCC; 16];

fn nintendo_tweak(i: u128) -> [u8; 16] {
    i.to_be_bytes()
}

fn xts_encrypt(key: &[u8; 32], buf: &mut [u8]) {
    let c1 = Aes128::new(GenericArray::from_slice(&key[..16]));
    let c2 = Aes128::new(GenericArray::from_slice(&key[16..]));
    let xts = Xts128::new(c1, c2);
    xts.encrypt_area(buf, 0x200, 0, nintendo_tweak);
}

fn aes_ecb_encrypt_block(key: &[u8; 16], block: [u8; 16]) -> [u8; 16] {
    let c = Aes128::new(GenericArray::from_slice(key));
    let mut b = block;
    c.encrypt_block(GenericArray::from_mut_slice(&mut b));
    b
}

fn put(h: &mut [u8], off: usize, bytes: &[u8]) {
    h[off..off + bytes.len()].copy_from_slice(bytes);
}

fn keys_with_application_rev(rev: usize) -> Keys {
    let mut app: Vec<Option<Aes128Key>> = Vec::new();
    for _ in 0..rev {
        app.push(None);
    }
    app.push(Some(Aes128Key { bytes: KAK.to_vec() }));
    Keys {
        header_key: Some(AesXtsKey { bytes: HEADER_KEY.to_vec() }),
        key_area_key_application: app,
        key_area_key_ocean: Vec::new(),
        key_area_key_system: Vec::new(),
    }
}

fn write_fs_header(h: &mut [u8], off: usize) {
    put(h, off, &2u16.to_le_bytes());
    h[off + 2] = 1; // partition-filesystem superblock
    h[off + 4] = 3; // counter-mode crypto
    for i in 0..32 {
        h[off + 8 + i] = i as u8;
    }
    put(h, off + 0x28, &0x1000u32.to_le_bytes());
    put(h, off + 0x30, &0x100u64.to_le_bytes());
    put(h, off + 0x38, &0x200u64.to_le_bytes());
    put(h, off + 0x40, &0x300u64.to_le_bytes());
    put(h, off + 0x48, &0x400u64.to_le_bytes());
    put(h, off + 0x140, &0xDEAD_BEEFu64.to_le_bytes());
}

fn plaintext_header() -> Vec<u8> {
    let mut h = vec![0u8; 0xC00];
    for b in h[0..0x100].iter_mut() {
        *b = 0x01;
    }
    for b in h[0x100..0x200].iter_mut() {
        *b = 0x02;
    }
    put(&mut h, 0x200, b"NCA3");
    h[0x204] = 1; // gamecard
    h[0x205] = 0; // content type: program
    h[0x206] = 3; // crypto_type
    h[0x207] = 0; // key type: application
    put(&mut h, 0x208, &0x123456u64.to_le_bytes());
    put(&mut h, 0x210, &0x0100_abcd_0000_1234u64.to_le_bytes());
    put(&mut h, 0x21C, &0x000A_0B0Cu32.to_le_bytes());
    h[0x220] = 5; // crypto_type2, so the effective revision is 4
    put(&mut h, 0x240, &6u32.to_le_bytes());
    put(&mut h, 0x244, &7u32.to_le_bytes());
    put(&mut h, 0x248, &8u32.to_le_bytes());
    put(&mut h, 0x24C, &9u32.to_le_bytes());
    let lo = aes_ecb_encrypt_block(&KAK, XTS_LO);
    let hi = aes_ecb_encrypt_block(&KAK, XTS_HI);
    let ctr = aes_ecb_encrypt_block(&KAK, CTR_KEY);
    put(&mut h, 0x300, &lo);
    put(&mut h, 0x310, &hi);
    put(&mut h, 0x320, &ctr);
    write_fs_header(&mut h, 0x400);
    h
}

fn encrypt_fixture(mut h: Vec<u8>) -> Vec<u8> {
    xts_encrypt(&HEADER_KEY, &mut h);
    h
}

fn parse(keys: &Keys, h: &Vec<u8>) -> Result<Nca<()>, Error> {
    assert!(keys_well_formed(keys));
    assert_eq!(h.len(), 0xC00);
    Nca::from_header(keys, h, ())
}

#[test]
fn test_master_key_revision_formula() {
    assert_eq!(get_master_key_revision(0, 0), 0);
    assert_eq!(get_master_key_revision(1, 0), 0);
    assert_eq!(get_master_key_revision(0, 1), 0);
    assert_eq!(get_master_key_revision(3, 5), 4);
    assert_eq!(get_master_key_revision(5, 3), 4);
    assert_eq!(get_master_key_revision(255, 255), 254);
}

#[test]
fn test_build_valid_nca3() {
    let keys = keys_with_application_rev(4);
    let h = encrypt_fixture(plaintext_header());
    let n = parse(&keys, &h).expect("valid fixture must parse");
    assert_eq!(n.json.format, NcaFormat::Nca3);
    assert_eq!(n.json.nca_size, 0x123456);
    assert_eq!(n.json.title_id, TitleId(0x0100_abcd_0000_1234));
    assert_eq!(n.json.content_type, ContentType::Program);
    assert_eq!(n.json.key_revision, 4);
    assert_eq!(n.json.key_type, KeyType::Application);
    assert_eq!(n.json.sdk_version, 0x000A_0B0C);
    assert!(n.json.is_gamecard);
    assert_eq!(n.json.sig, vec![0x01; 0x100]);
    assert_eq!(n.json.npdm_sig, vec![0x02; 0x100]);
    assert_eq!(n.json.rights_id, None);
}

#[test]
fn test_derived_keys_unwrap() {
    let keys = keys_with_application_rev(4);
    let h = encrypt_fixture(plaintext_header());
    let n = parse(&keys, &h).expect("valid fixture must parse");
    assert_eq!(n.json.ctr_key.bytes, CTR_KEY.to_vec());
    let mut xts: Vec<u8> = XTS_LO.to_vec();
    xts.extend_from_slice(&XTS_HI);
    assert_eq!(n.json.xts_key.bytes, xts);
    // The unwrap is a real decryption, not a copy of the wrapped blob.
    let wrapped = aes_ecb_encrypt_block(&KAK, CTR_KEY);
    assert_ne!(n.json.ctr_key.bytes, wrapped.to_vec());
}

#[test]
fn test_section_fields() {
    let keys = keys_with_application_rev(4);
    let h = encrypt_fixture(plaintext_header());
    let n = parse(&keys, &h).expect("valid fixture must parse");
    assert_eq!(n.json.sections.len(), 4);
    let s = n.json.sections[0].as_ref().expect("section 0 present");
    assert_eq!(s.media_start_offset, 6);
    assert_eq!(s.media_end_offset, 7);
    assert_eq!(s.unknown1, 8);
    assert_eq!(s.unknown2, 9);
    assert_eq!(s.crypto, CryptoType::Ctr);
    assert_eq!(s.nounce, 0xDEAD_BEEF);
    let expected_hash: Vec<u8> = (0u8..32).collect();
    match &s.fstype {
        FsType::Pfs0 {
            master_hash,
            block_size,
            hash_table_offset,
            hash_table_size,
            pfs0_offset,
            pfs0_size,
        } => {
            assert_eq!(master_hash, &expected_hash);
            assert_eq!(*block_size, 0x1000);
            assert_eq!(*hash_table_offset, 0x100);
            assert_eq!(*hash_table_size, 0x200);
            assert_eq!(*pfs0_offset, 0x300);
            assert_eq!(*pfs0_size, 0x400);
        },
        FsType::RomFs => panic!("unexpected filesystem variant"),
    }
    assert!(n.json.sections[1].is_none());
    assert!(n.json.sections[2].is_none());
    assert!(n.json.sections[3].is_none());
}

#[test]
fn test_section_table_population() {
    let keys = keys_with_application_rev(4);
    let mut p = plaintext_header();
    write_fs_header(&mut p, 0x400 + 2 * 0x200);
    let h = encrypt_fixture(p);
    let n = parse(&keys, &h).expect("valid fixture must parse");
    assert!(n.json.sections[0].is_some());
    assert!(n.json.sections[1].is_none());
    assert!(n.json.sections[2].is_some());
    assert!(n.json.sections[3].is_none());
}

#[test]
fn test_missing_header_key() {
    let mut keys = keys_with_application_rev(4);
    keys.header_key = None;
    let h = encrypt_fixture(plaintext_header());
    let e = parse(&keys, &h).err().expect("must fail");
    assert_eq!(e, Error::MissingKey(KeyName::HeaderKey));
}

#[test]
fn test_missing_key_area_key() {
    let keys = Keys {
        header_key: Some(AesXtsKey { bytes: HEADER_KEY.to_vec() }),
        key_area_key_application: Vec::new(),
        key_area_key_ocean: Vec::new(),
        key_area_key_system: Vec::new(),
    };
    let h = encrypt_fixture(plaintext_header());
    let e = parse(&keys, &h).err().expect("must fail");
    assert_eq!(e, Error::MissingKey(KeyName::KeyAreaKey(KeyType::Application, 4)));
}

#[test]
fn test_missing_key_area_key_ocean() {
    let keys = keys_with_application_rev(4);
    let mut p = plaintext_header();
    p[0x207] = 1; // ocean family, for which the table holds no key
    let h = encrypt_fixture(p);
    let e = parse(&keys, &h).err().expect("must fail");
    assert_eq!(e, Error::MissingKey(KeyName::KeyAreaKey(KeyType::Ocean, 4)));
}

#[test]
fn test_unknown_magic_parse_error() {
    let keys = keys_with_application_rev(4);
    let h = vec![0u8; 0xC00];
    let e = parse(&keys, &h).err().expect("must fail");
    assert_eq!(e, Error::ParseError);
    let mut p = plaintext_header();
    put(&mut p, 0x200, b"XXXX");
    let h2 = encrypt_fixture(p);
    let e2 = parse(&keys, &h2).err().expect("must fail");
    assert_eq!(e2, Error::ParseError);
}

#[test]
fn test_nca2_unsupported() {
    let keys = keys_with_application_rev(4);
    let mut p = plaintext_header();
    put(&mut p, 0x200, b"NCA2");
    let h = encrypt_fixture(p);
    let e = parse(&keys, &h).err().expect("must fail");
    assert_eq!(e, Error::UnsupportedFormat(Unsupported::Nca2));
}

#[test]
fn test_nca0_unsupported() {
    let keys = keys_with_application_rev(4);
    let mut p = plaintext_header();
    put(&mut p, 0x200, b"NCA0");
    let h = encrypt_fixture(p);
    let e = parse(&keys, &h).err().expect("must fail");
    assert_eq!(e, Error::UnsupportedFormat(Unsupported::Nca0));
}

#[test]
fn test_rights_id_unsupported() {
    // The key table holds no key at all: the rights-id branch must fire
    // before any key-area lookup.
    let keys = Keys {
        header_key: Some(AesXtsKey { bytes: HEADER_KEY.to_vec() }),
        key_area_key_application: Vec::new(),
        key_area_key_ocean: Vec::new(),
        key_area_key_system: Vec::new(),
    };
    let mut p = plaintext_header();
    p[0x230] = 0x77; // non-zero rights id
    let h = encrypt_fixture(p);
    let e = parse(&keys, &h).err().expect("must fail");
    assert_eq!(e, Error::UnsupportedFormat(Unsupported::RightsId));
}

#[test]
fn test_key_type_byte_invalid() {
    let keys = keys_with_application_rev(4);
    let mut p = plaintext_header();
    p[0x207] = 7;
    let h = encrypt_fixture(p);
    let e = parse(&keys, &h).err().expect("must fail");
    assert_eq!(e, Error::ValidationError(Validation::KeyTypeValue(7)));
}

#[test]
fn test_fs_header_version_validation() {
    let keys = keys_with_application_rev(4);
    let mut p = plaintext_header();
    put(&mut p, 0x400, &3u16.to_le_bytes());
    let h = encrypt_fixture(p);
    let e = parse(&keys, &h).err().expect("must fail");
    assert_eq!(e, Error::ValidationError(Validation::FsHeaderVersion(3)));
}

#[test]
fn test_superblock_romfs_rejected() {
    let keys = keys_with_application_rev(4);
    let mut p = plaintext_header();
    p[0x402] = 0; // the romfs discriminant never reaches a decoded section
    let h = encrypt_fixture(p);
    let e = parse(&keys, &h).err().expect("must fail");
    assert_eq!(e, Error::ValidationError(Validation::SuperblockKind(0)));
}

#[test]
fn test_superblock_unknown_rejected() {
    let keys = keys_with_application_rev(4);
    let mut p = plaintext_header();
    p[0x402] = 9;
    let h = encrypt_fixture(p);
    let e = parse(&keys, &h).err().expect("must fail");
    assert_eq!(e, Error::ValidationError(Validation::SuperblockKind(9)));
}

#[test]
fn test_parse_idempotent() {
    let keys = keys_with_application_rev(4);
    let h = encrypt_fixture(plaintext_header());
    let n1 = parse(&keys, &h).expect("valid fixture must parse");
    let n2 = parse(&keys, &h).expect("valid fixture must parse");
    assert_eq!(n1.json, n2.json);
}

#[test]
fn test_get_key_area_key_direct() {
    let keys = keys_with_application_rev(2);
    let k = get_key_area_key(&keys, 2, KeyType::Application).expect("key present");
    assert_eq!(k.bytes, KAK.to_vec());
    let e = get_key_area_key(&keys, 1, KeyType::Application).err().expect("absent entry");
    assert_eq!(e, Error::MissingKey(KeyName::KeyAreaKey(KeyType::Application, 1)));
    let e2 = get_key_area_key(&keys, 9, KeyType::System).err().expect("beyond table");
    assert_eq!(e2, Error::MissingKey(KeyName::KeyAreaKey(KeyType::System, 9)));
}

#[test]
fn test_keys_well_formed_check() {
    let keys = keys_with_application_rev(4);
    assert!(keys_well_formed(&keys));
    let mut bad = keys_with_application_rev(4);
    bad.key_area_key_application[4] = Some(Aes128Key { bytes: vec![0; 15] });
    assert!(!keys_well_formed(&bad));
    let mut bad2 = keys_with_application_rev(4);
    bad2.header_key = Some(AesXtsKey { bytes: vec![0; 16] });
    assert!(!keys_well_formed(&bad2));
}

#[test]
fn test_missing_key_names() {
    assert_eq!(KeyName::HeaderKey.name(), "header_key");
    assert_eq!(
        KeyName::KeyAreaKey(KeyType::Application, 4).name(),
        "key_area_key_application_04"
    );
    assert_eq!(KeyName::KeyAreaKey(KeyType::Ocean, 0x1f).name(), "key_area_key_ocean_1f");
    assert_eq!(KeyName::KeyAreaKey(KeyType::System, 0xfe).name(), "key_area_key_system_fe");
}

#[test]
fn test_title_id_hex() {
    assert_eq!(TitleId(0x0100_abcd_0000_1234).to_hex(), "0100abcd00001234");
    assert_eq!(TitleId(0).to_hex(), "0000000000000000");
    assert_eq!(TitleId(u64::MAX).to_hex(), "ffffffffffffffff");
}
