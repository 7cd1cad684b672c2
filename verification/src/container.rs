//! The container assembler: master-key-revision arithmetic, key-area-key
//! lookup, working-key derivation, and section-table decoding, assembled
//! into the final container description.

use crate::bytes::{all_zero, all_zero_range, copy_bytes};
use crate::crypto::{derive_key, derive_xts_key, spec_derive_key, spec_derive_xts_key};
use crate::error::{hex_digit, hex_str, Error, KeyName, Unsupported, Validation};
use crate::header::{
    decrypt_header, is_nca0_magic, is_nca2_magic, spec_decrypt_header, RawFsHeader, RawFsHeaderV,
    RawNca, RawNcaV, RawSectionEntry, RawSuperblock, RawSuperblockV,
};
use crate::keys::{
    get_key_area_key, spec_key_area_key, Aes128Key, AesXtsKey, KeyType, Keys,
};
use vstd::prelude::*;

verus! {

/// The format version a container's magic declares.
#[derive(Debug, Clone, Copy, PartialEq, Eq, Structural)]
pub enum NcaFormat {
    Nca3,
    Nca2,
    Nca0,
}

/// The kind of content a container carries.
#[derive(Debug, Clone, Copy, PartialEq, Eq, Structural)]
pub enum ContentType {
    Program,
    Meta,
    Control,
    Manual,
    Data,
    PublicData,
    Unknown(u8),
}

/// The crypto mode of one content section.
#[derive(Debug, Clone, Copy, PartialEq, Eq, Structural)]
pub enum CryptoType {
    NoCrypto,
    Xts,
    Ctr,
    Bktr,
    Unknown(u8),
}

/// The filesystem variant of one content section.
#[derive(Debug, PartialEq, Eq)]
pub enum FsType {
    Pfs0 {
        master_hash: Vec<u8>,
        block_size: u32,
        hash_table_offset: u64,
        hash_table_size: u64,
        pfs0_offset: u64,
        pfs0_size: u64,
    },
    RomFs,
}

#[verifier::ext_equal]
pub ghost enum FsTypeV {
    Pfs0 {
        master_hash: Seq<u8>,
        block_size: u32,
        hash_table_offset: u64,
        hash_table_size: u64,
        pfs0_offset: u64,
        pfs0_size: u64,
    },
    RomFs,
}

impl View for FsType {
    type V = FsTypeV;

    open spec fn view(&self) -> FsTypeV {
        match self {
            FsType::Pfs0 {
                master_hash,
                block_size,
                hash_table_offset,
                hash_table_size,
                pfs0_offset,
                pfs0_size,
            } => FsTypeV::Pfs0 {
                master_hash: master_hash@,
                block_size: *block_size,
                hash_table_offset: *hash_table_offset,
                hash_table_size: *hash_table_size,
                pfs0_offset: *pfs0_offset,
                pfs0_size: *pfs0_size,
            },
            FsType::RomFs => FsTypeV::RomFs,
        }
    }
}

/// A 64-bit title identifier.
#[derive(Debug, Clone, Copy, PartialEq, Eq, Structural)]
pub struct TitleId(pub u64);

/// The sixteen lower-case hexadecimal digits of `v`, most significant first.
pub open spec fn title_id_chars(v: u64) -> Seq<char> {
    seq![
        hex_digit(v as int / 0x1000000000000000 % 16),
        hex_digit(v as int / 0x100000000000000 % 16),
        hex_digit(v as int / 0x10000000000000 % 16),
        hex_digit(v as int / 0x1000000000000 % 16),
        hex_digit(v as int / 0x100000000000 % 16),
        hex_digit(v as int / 0x10000000000 % 16),
        hex_digit(v as int / 0x1000000000 % 16),
        hex_digit(v as int / 0x100000000 % 16),
        hex_digit(v as int / 0x10000000 % 16),
        hex_digit(v as int / 0x1000000 % 16),
        hex_digit(v as int / 0x100000 % 16),
        hex_digit(v as int / 0x10000 % 16),
        hex_digit(v as int / 0x1000 % 16),
        hex_digit(v as int / 0x100 % 16),
        hex_digit(v as int / 0x10 % 16),
        hex_digit(v as int % 16),
    ]
}

impl TitleId {
    /// Renders the identifier as it is conventionally written: sixteen
    /// lower-case hexadecimal digits, zero-padded.
    pub fn to_hex(&self) -> (r: String)
        ensures
            r@ == title_id_chars(self.0),
    {
        let v = self.0;
        let mut s = String::from_str("");
        proof {
            reveal_strlit("");
        }
        s.append(hex_str((v / 0x1000000000000000 % 16) as usize));
        s.append(hex_str((v / 0x100000000000000 % 16) as usize));
        s.append(hex_str((v / 0x10000000000000 % 16) as usize));
        s.append(hex_str((v / 0x1000000000000 % 16) as usize));
        s.append(hex_str((v / 0x100000000000 % 16) as usize));
        s.append(hex_str((v / 0x10000000000 % 16) as usize));
        s.append(hex_str((v / 0x1000000000 % 16) as usize));
        s.append(hex_str((v / 0x100000000 % 16) as usize));
        s.append(hex_str((v / 0x10000000 % 16) as usize));
        s.append(hex_str((v / 0x1000000 % 16) as usize));
        s.append(hex_str((v / 0x100000 % 16) as usize));
        s.append(hex_str((v / 0x10000 % 16) as usize));
        s.append(hex_str((v / 0x1000 % 16) as usize));
        s.append(hex_str((v / 0x100 % 16) as usize));
        s.append(hex_str((v / 0x10 % 16) as usize));
        s.append(hex_str((v % 16) as usize));
        proof {
            assert(s@ =~= title_id_chars(v));
        }
        s
    }
}

/// One decoded content section.
#[derive(Debug, PartialEq, Eq)]
pub struct SectionJson {
    pub media_start_offset: u32,
    pub media_end_offset: u32,
    pub unknown1: u32,
    pub unknown2: u32,
    pub crypto: CryptoType,
    pub fstype: FsType,
    pub nounce: u64,
}

#[verifier::ext_equal]
pub ghost struct SectionJsonV {
    pub media_start_offset: u32,
    pub media_end_offset: u32,
    pub unknown1: u32,
    pub unknown2: u32,
    pub crypto: CryptoType,
    pub fstype: FsTypeV,
    pub nounce: u64,
}

impl View for SectionJson {
    type V = SectionJsonV;

    open spec fn view(&self) -> SectionJsonV {
        SectionJsonV {
            media_start_offset: self.media_start_offset,
            media_end_offset: self.media_end_offset,
            unknown1: self.unknown1,
            unknown2: self.unknown2,
            crypto: self.crypto,
            fstype: self.fstype@,
            nounce: self.nounce,
        }
    }
}

pub open spec fn opt_section_view(s: Option<SectionJson>) -> Option<SectionJsonV> {
    match s {
        Some(x) => Some(x@),
        None => None,
    }
}

/// The fully derived description of a container.
#[derive(Debug, PartialEq, Eq)]
pub struct NcaJson {
    pub format: NcaFormat,
    pub sig: Vec<u8>,
    pub npdm_sig: Vec<u8>,
    pub is_gamecard: bool,
    pub content_type: ContentType,
    pub key_revision: u8,
    pub key_type: KeyType,
    pub nca_size: u64,
    pub title_id: TitleId,
    pub sdk_version: u32,
    pub xts_key: AesXtsKey,
    pub ctr_key: Aes128Key,
    pub rights_id: Option<Vec<u8>>,
    pub sections: Vec<Option<SectionJson>>,
}

#[verifier::ext_equal]
pub ghost struct NcaJsonV {
    pub format: NcaFormat,
    pub sig: Seq<u8>,
    pub npdm_sig: Seq<u8>,
    pub is_gamecard: bool,
    pub content_type: ContentType,
    pub key_revision: u8,
    pub key_type: KeyType,
    pub nca_size: u64,
    pub title_id: u64,
    pub sdk_version: u32,
    pub xts_key: Seq<u8>,
    pub ctr_key: Seq<u8>,
    pub rights_id: Option<Seq<u8>>,
    pub sections: Seq<Option<SectionJsonV>>,
}

impl View for NcaJson {
    type V = NcaJsonV;

    open spec fn view(&self) -> NcaJsonV {
        NcaJsonV {
            format: self.format,
            sig: self.sig@,
            npdm_sig: self.npdm_sig@,
            is_gamecard: self.is_gamecard,
            content_type: self.content_type,
            key_revision: self.key_revision,
            key_type: self.key_type,
            nca_size: self.nca_size,
            title_id: self.title_id.0,
            sdk_version: self.sdk_version,
            xts_key: self.xts_key@,
            ctr_key: self.ctr_key@,
            rights_id: match self.rights_id {
                Some(v) => Some(v@),
                None => None,
            },
            sections: self.sections@.map_values(|s: Option<SectionJson>| opt_section_view(s)),
        }
    }
}

impl NcaJson {
    pub open spec fn wf(&self) -> bool {
        self.sections@.len() == 4
    }
}

/// A parsed container: the description derived from its header, together
/// with the owned byte stream, positioned past the header.
#[derive(Debug)]
pub struct Nca<R> {
    pub stream: R,
    pub json: NcaJson,
}

/// The effective master-key revision: the larger crypto-type field,
/// saturating-subtracted by one, since the platform encodes revision zero as
/// either raw value zero or one.
pub open spec fn spec_master_key_revision(crypto_type: u8, crypto_type2: u8) -> u8 {
    let m: u8 = if crypto_type2 >= crypto_type {
        crypto_type2
    } else {
        crypto_type
    };
    if m >= 1 {
        (m - 1) as u8
    } else {
        0
    }
}

pub fn get_master_key_revision(crypto_type: u8, crypto_type2: u8) -> (r: u8)
    ensures
        r == spec_master_key_revision(crypto_type, crypto_type2),
{
    let m: u8 = if crypto_type2 >= crypto_type {
        crypto_type2
    } else {
        crypto_type
    };
    if m >= 1 {
        m - 1
    } else {
        0
    }
}

/// The key family named by the raw key-type byte, if any.
pub open spec fn key_type_of(b: u8) -> Option<KeyType> {
    if b == 0 {
        Some(KeyType::Application)
    } else if b == 1 {
        Some(KeyType::Ocean)
    } else if b == 2 {
        Some(KeyType::System)
    } else {
        None
    }
}

/// The content-type tag of the raw content-type byte.
pub open spec fn content_type_of(b: u8) -> ContentType {
    if b == 0 {
        ContentType::Program
    } else if b == 1 {
        ContentType::Meta
    } else if b == 2 {
        ContentType::Control
    } else if b == 3 {
        ContentType::Manual
    } else if b == 4 {
        ContentType::Data
    } else if b == 5 {
        ContentType::PublicData
    } else {
        ContentType::Unknown(b)
    }
}

/// The crypto-mode tag of the raw crypto-mode byte.
pub open spec fn crypto_type_of(b: u8) -> CryptoType {
    if b == 1 {
        CryptoType::NoCrypto
    } else if b == 2 {
        CryptoType::Xts
    } else if b == 3 {
        CryptoType::Ctr
    } else if b == 4 {
        CryptoType::Bktr
    } else {
        CryptoType::Unknown(b)
    }
}

/// The format tag of a header magic; the decryptor admits only the three
/// known magics, and of those only "NCA3" reaches assembly.
pub open spec fn spec_format_of(m: Seq<u8>) -> NcaFormat {
    if is_nca2_magic(m) {
        NcaFormat::Nca2
    } else if is_nca0_magic(m) {
        NcaFormat::Nca0
    } else {
        NcaFormat::Nca3
    }
}

fn content_type_from(b: u8) -> (c: ContentType)
    ensures
        c == content_type_of(b),
{
    if b == 0 {
        ContentType::Program
    } else if b == 1 {
        ContentType::Meta
    } else if b == 2 {
        ContentType::Control
    } else if b == 3 {
        ContentType::Manual
    } else if b == 4 {
        ContentType::Data
    } else if b == 5 {
        ContentType::PublicData
    } else {
        ContentType::Unknown(b)
    }
}

fn crypto_type_from(b: u8) -> (c: CryptoType)
    ensures
        c == crypto_type_of(b),
{
    if b == 1 {
        CryptoType::NoCrypto
    } else if b == 2 {
        CryptoType::Xts
    } else if b == 3 {
        CryptoType::Ctr
    } else if b == 4 {
        CryptoType::Bktr
    } else {
        CryptoType::Unknown(b)
    }
}

/// What decoding one present section yields: the fs-header must report
/// version 2, and its superblock must carry the partition-filesystem
/// discriminant; the section's crypto parameters and superblock fields are
/// then taken over verbatim.
pub open spec fn spec_decode_section(entry: RawSectionEntry, fs: RawFsHeaderV) -> Result<
    SectionJsonV,
    Error,
> {
    if fs.version != 2 {
        Err(Error::ValidationError(Validation::FsHeaderVersion(fs.version)))
    } else {
        match fs.superblock {
            RawSuperblockV::Pfs0(s) => Ok(
                SectionJsonV {
                    media_start_offset: entry.media_start_offset,
                    media_end_offset: entry.media_end_offset,
                    unknown1: entry.unknown1,
                    unknown2: entry.unknown2,
                    crypto: crypto_type_of(fs.crypt_type),
                    fstype: FsTypeV::Pfs0 {
                        master_hash: s.master_hash,
                        block_size: s.block_size,
                        hash_table_offset: s.hash_table_offset,
                        hash_table_size: s.hash_table_size,
                        pfs0_offset: s.pfs0_offset,
                        pfs0_size: s.pfs0_size,
                    },
                    nounce: fs.section_ctr,
                },
            ),
            _ => Err(Error::ValidationError(Validation::SuperblockKind(fs.partition_type))),
        }
    }
}

/// Decodes one present section from its section-table entry and fs-header.
pub fn decode_section(entry: &RawSectionEntry, fs: &RawFsHeader) -> (r: Result<SectionJson, Error>)
    ensures
        match r {
            Ok(s) => spec_decode_section(*entry, fs@) == Ok::<SectionJsonV, Error>(s@),
            Err(e) => spec_decode_section(*entry, fs@) == Err::<SectionJsonV, Error>(e),
        },
{
    if fs.version != 2 {
        return Err(Error::ValidationError(Validation::FsHeaderVersion(fs.version)));
    }
    match &fs.superblock {
        RawSuperblock::Pfs0(s) => Ok(
            SectionJson {
                media_start_offset: entry.media_start_offset,
                media_end_offset: entry.media_end_offset,
                unknown1: entry.unknown1,
                unknown2: entry.unknown2,
                crypto: crypto_type_from(fs.crypt_type),
                fstype: FsType::Pfs0 {
                    master_hash: copy_bytes(&s.master_hash),
                    block_size: s.block_size,
                    hash_table_offset: s.hash_table_offset,
                    hash_table_size: s.hash_table_size,
                    pfs0_offset: s.pfs0_offset,
                    pfs0_size: s.pfs0_size,
                },
                nounce: fs.section_ctr,
            },
        ),
        _ => Err(Error::ValidationError(Validation::SuperblockKind(fs.partition_type))),
    }
}

/// The section-table slot `i`: empty when the fs-header slot is absent,
/// otherwise the decoded section or its error.
pub open spec fn spec_section_slot(raw: RawNcaV, i: int) -> Result<Option<SectionJsonV>, Error> {
    match raw.fs_headers[i] {
        None => Ok(None),
        Some(fs) => match spec_decode_section(raw.section_entries[i], fs) {
            Ok(s) => Ok(Some(s)),
            Err(e) => Err(e),
        },
    }
}

/// The whole section table, or the error of the lowest failing slot.
pub open spec fn spec_sections(raw: RawNcaV) -> Result<Seq<Option<SectionJsonV>>, Error> {
    match spec_section_slot(raw, 0) {
        Err(e) => Err(e),
        Ok(s0) => match spec_section_slot(raw, 1) {
            Err(e) => Err(e),
            Ok(s1) => match spec_section_slot(raw, 2) {
                Err(e) => Err(e),
                Ok(s2) => match spec_section_slot(raw, 3) {
                    Err(e) => Err(e),
                    Ok(s3) => Ok(seq![s0, s1, s2, s3]),
                },
            },
        },
    }
}

fn section_slot(raw: &RawNca, i: usize) -> (r: Result<Option<SectionJson>, Error>)
    requires
        raw.wf(),
        i < 4,
    ensures
        match r {
            Ok(s) => spec_section_slot(raw@, i as int) == Ok::<Option<SectionJsonV>, Error>(
                opt_section_view(s),
            ),
            Err(e) => spec_section_slot(raw@, i as int) == Err::<Option<SectionJsonV>, Error>(e),
        },
{
    match &raw.fs_headers[i] {
        None => Ok(None),
        Some(fs) => match decode_section(&raw.section_entries[i], fs) {
            Ok(s) => Ok(Some(s)),
            Err(e) => Err(e),
        },
    }
}

/// What assembling a decrypted raw header yields: the rights-id path is
/// surfaced as unsupported before any key is touched; then the key family is
/// read, the key-area key resolved, the working keys unwrapped, and the
/// section table decoded.
pub open spec fn spec_assemble(pki: Keys, raw: RawNcaV) -> Result<NcaJsonV, Error> {
    let master_key_revision = spec_master_key_revision(raw.crypto_type, raw.crypto_type2);
    if !all_zero(raw.rights_id) {
        Err(Error::UnsupportedFormat(Unsupported::RightsId))
    } else {
        match key_type_of(raw.key_type) {
            None => Err(Error::ValidationError(Validation::KeyTypeValue(raw.key_type))),
            Some(key_type) => match spec_key_area_key(
                pki,
                master_key_revision as int,
                key_type,
            ) {
                None => Err(
                    Error::MissingKey(
                        KeyName::KeyAreaKey(key_type, master_key_revision as usize),
                    ),
                ),
                Some(kak) => match spec_sections(raw) {
                    Err(e) => Err(e),
                    Ok(sections) => Ok(
                        NcaJsonV {
                            format: spec_format_of(raw.magic),
                            sig: raw.fixed_key_sig,
                            npdm_sig: raw.npdm_sig,
                            is_gamecard: raw.is_gamecard != 0,
                            content_type: content_type_of(raw.content_type),
                            key_revision: master_key_revision,
                            key_type,
                            nca_size: raw.nca_size,
                            title_id: raw.title_id,
                            sdk_version: raw.sdk_version,
                            xts_key: spec_derive_xts_key(kak, raw.encrypted_xts_key),
                            ctr_key: spec_derive_key(kak, raw.encrypted_ctr_key),
                            rights_id: None,
                            sections,
                        },
                    ),
                },
            },
        }
    }
}

/// What parsing a 0xC00-byte header buffer against a key set yields.
pub open spec fn spec_build(pki: Keys, bytes: Seq<u8>) -> Result<NcaJsonV, Error> {
    match spec_decrypt_header(pki, bytes) {
        Err(e) => Err(e),
        Ok(raw) => spec_assemble(pki, raw),
    }
}

impl<R> Nca<R> {
    /// Parses a container from its already-read 0xC00-byte header buffer,
    /// taking ownership of the stream positioned past the header.
    ///
    /// The result is a function of the key set and the buffer alone: the
    /// same inputs always yield the same description or the same error.
    pub fn from_header(pki: &Keys, header: &Vec<u8>, stream: R) -> (r: Result<Nca<R>, Error>)
        requires
            pki.wf(),
            header.len() == 0xc00,
        ensures
            match r {
                Ok(n) => {
                    &&& spec_build(*pki, header@) == Ok::<NcaJsonV, Error>(n.json@)
                    &&& n.json.wf()
                },
                Err(e) => spec_build(*pki, header@) == Err::<NcaJsonV, Error>(e),
            },
    {
        let raw = match decrypt_header(pki, header) {
            Ok(raw) => raw,
            Err(e) => {
                return Err(e);
            },
        };
        // The decryptor admits only the supported magic into the raw record.
        let format = NcaFormat::Nca3;
        proof {
            assert(spec_format_of(raw@.magic) == NcaFormat::Nca3);
        }
        let master_key_revision = get_master_key_revision(raw.crypto_type, raw.crypto_type2);
        let rights_zero = all_zero_range(&raw.rights_id, 0, raw.rights_id.len());
        proof {
            assert(raw.rights_id@.subrange(0, raw.rights_id@.len() as int) =~= raw.rights_id@);
        }
        if !rights_zero {
            return Err(Error::UnsupportedFormat(Unsupported::RightsId));
        }
        let key_type = if raw.key_type == 0 {
            KeyType::Application
        } else if raw.key_type == 1 {
            KeyType::Ocean
        } else if raw.key_type == 2 {
            KeyType::System
        } else {
            return Err(Error::ValidationError(Validation::KeyTypeValue(raw.key_type)));
        };
        let key_area_key = match get_key_area_key(pki, master_key_revision as usize, key_type) {
            Ok(k) => k,
            Err(e) => {
                return Err(e);
            },
        };
        let xts_key = derive_xts_key(&key_area_key, &raw.encrypted_xts_key);
        let ctr_key = derive_key(&key_area_key, &raw.encrypted_ctr_key);
        let s0 = match section_slot(&raw, 0) {
            Ok(s) => s,
            Err(e) => {
                return Err(e);
            },
        };
        let s1 = match section_slot(&raw, 1) {
            Ok(s) => s,
            Err(e) => {
                return Err(e);
            },
        };
        let s2 = match section_slot(&raw, 2) {
            Ok(s) => s,
            Err(e) => {
                return Err(e);
            },
        };
        let s3 = match section_slot(&raw, 3) {
            Ok(s) => s,
            Err(e) => {
                return Err(e);
            },
        };
        let mut sections: Vec<Option<SectionJson>> = Vec::new();
        sections.push(s0);
        sections.push(s1);
        sections.push(s2);
        sections.push(s3);
        let json = NcaJson {
            format,
            sig: raw.fixed_key_sig,
            npdm_sig: raw.npdm_sig,
            is_gamecard: raw.is_gamecard != 0,
            content_type: content_type_from(raw.content_type),
            key_revision: master_key_revision,
            key_type,
            nca_size: raw.nca_size,
            title_id: TitleId(raw.title_id),
            sdk_version: raw.sdk_version,
            xts_key,
            ctr_key,
            rights_id: None,
            sections,
        };
        proof {
            match spec_assemble(*pki, raw@) {
                Ok(v) => {
                    assert(json@.sections =~= v.sections);
                    assert(json@ =~= v);
                },
                Err(_) => {
                    assert(false);
                },
            }
        }
        Ok(Nca { stream, json })
    }
}

/// The inputs on which a parse is owed success: the header key is present,
/// the partially decrypted buffer carries the supported magic, the rights id
/// is zero, the key-type byte names a family whose key-area key is held at
/// the container's master-key revision, and every present fs-header decodes.
pub open spec fn spec_build_succeeds(pki: Keys, bytes: Seq<u8>) -> bool {
    match pki.header_key {
        None => false,
        Some(hk) => {
            let d0 = crate::crypto::xts_decrypted(hk@, bytes.subrange(0, 0x400), 0, 0x200);
            let raw = crate::header::spec_parse_raw(
                crate::crypto::xts_decrypted(hk@, bytes, 0, 0x200),
            );
            &&& crate::header::is_nca3_magic(d0.subrange(0x200, 0x204))
            &&& all_zero(raw.rights_id)
            &&& key_type_of(raw.key_type) is Some
            &&& (key_type_of(raw.key_type) matches Some(kt) ==> spec_key_area_key(
                pki,
                spec_master_key_revision(raw.crypto_type, raw.crypto_type2) as int,
                kt,
            ) is Some)
            &&& forall|i: int| 0 <= i < 4 ==> spec_section_slot(raw, i) is Ok
        },
    }
}

/// Law: a parse yields a container description on exactly the inputs of
/// `spec_build_succeeds`, and an error on all others.
pub proof fn lemma_build_success_iff(pki: Keys, bytes: Seq<u8>)
    ensures
        (spec_build(pki, bytes) is Ok) <==> spec_build_succeeds(pki, bytes),
{
    match pki.header_key {
        None => {},
        Some(hk) => {
            let d0 = crate::crypto::xts_decrypted(hk@, bytes.subrange(0, 0x400), 0, 0x200);
            let raw = crate::header::spec_parse_raw(
                crate::crypto::xts_decrypted(hk@, bytes, 0, 0x200),
            );
            if crate::header::is_nca3_magic(d0.subrange(0x200, 0x204)) {
                assert(spec_decrypt_header(pki, bytes) == Ok::<RawNcaV, Error>(raw));
                let slots_ok = spec_section_slot(raw, 0) is Ok && spec_section_slot(raw, 1) is Ok
                    && spec_section_slot(raw, 2) is Ok && spec_section_slot(raw, 3) is Ok;
                if slots_ok {
                    assert forall|i: int| 0 <= i < 4 implies spec_section_slot(raw, i) is Ok by {
                        if i == 0 {
                        } else if i == 1 {
                        } else if i == 2 {
                        } else {
                            assert(i == 3);
                        }
                    }
                }
                assert((spec_sections(raw) is Ok) <==> slots_ok);
            }
        },
    }
}

/// Law: in a successfully assembled container, the section table holds an
/// entry at exactly the indices whose fs-header slot is present in the raw
/// header, and at no others.
pub proof fn lemma_sections_match_fs_headers(pki: Keys, raw: RawNcaV, v: NcaJsonV)
    requires
        raw.fs_headers.len() == 4,
        spec_assemble(pki, raw) == Ok::<NcaJsonV, Error>(v),
    ensures
        v.sections.len() == 4,
        forall|i: int|
            0 <= i < 4 ==> ((v.sections[i] is Some) <==> (raw.fs_headers[i] is Some)),
{
    assert(spec_sections(raw) is Ok);
    let s = match spec_sections(raw) {
        Ok(s) => s,
        Err(_) => arbitrary(),
    };
    assert(v.sections == s);
    assert(spec_section_slot(raw, 0) == Ok::<Option<SectionJsonV>, Error>(s[0]));
    assert(spec_section_slot(raw, 1) == Ok::<Option<SectionJsonV>, Error>(s[1]));
    assert(spec_section_slot(raw, 2) == Ok::<Option<SectionJsonV>, Error>(s[2]));
    assert(spec_section_slot(raw, 3) == Ok::<Option<SectionJsonV>, Error>(s[3]));
    assert forall|i: int| 0 <= i < 4 implies ((v.sections[i] is Some) <==> (raw.fs_headers[i]
        is Some)) by {
        assert(spec_section_slot(raw, i) == Ok::<Option<SectionJsonV>, Error>(s[i]));
    }
}

} // verus!
