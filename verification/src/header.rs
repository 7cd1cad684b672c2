//! The raw header schema and the header decryptor.
//!
//! A container header is 0xC00 bytes.  The first 0x400 bytes decrypt under
//! the fixed header key in all format versions; how the remaining 0x800
//! bytes decrypt depends on the magic found at offset 0x200 of the partially
//! decrypted buffer.  The supported version re-decrypts the whole header
//! uniformly, sector by sector, and the decrypted buffer is then read as a
//! fixed-offset record.

use crate::bytes::{
    all_zero, all_zero_range, copy_range, le16_at, le32_at, le64_at, read_le_u16, read_le_u32,
    read_le_u64,
};
use crate::crypto::{xts_decrypt_area, xts_decrypted};
use crate::error::{Error, KeyName, Unsupported};
use crate::keys::Keys;
use vstd::prelude::*;

verus! {

/// One entry of the section table: start and end in media units plus two
/// reserved fields.
#[derive(Debug, Clone, Copy, PartialEq, Eq, Structural)]
pub struct RawSectionEntry {
    pub media_start_offset: u32,
    pub media_end_offset: u32,
    pub unknown1: u32,
    pub unknown2: u32,
}

/// The superblock of a partition filesystem section.
#[derive(Debug)]
pub struct RawPfs0Superblock {
    pub master_hash: Vec<u8>,
    pub block_size: u32,
    pub hash_table_offset: u64,
    pub hash_table_size: u64,
    pub pfs0_offset: u64,
    pub pfs0_size: u64,
}

#[verifier::ext_equal]
pub ghost struct RawPfs0SuperblockV {
    pub master_hash: Seq<u8>,
    pub block_size: u32,
    pub hash_table_offset: u64,
    pub hash_table_size: u64,
    pub pfs0_offset: u64,
    pub pfs0_size: u64,
}

impl View for RawPfs0Superblock {
    type V = RawPfs0SuperblockV;

    open spec fn view(&self) -> RawPfs0SuperblockV {
        RawPfs0SuperblockV {
            master_hash: self.master_hash@,
            block_size: self.block_size,
            hash_table_offset: self.hash_table_offset,
            hash_table_size: self.hash_table_size,
            pfs0_offset: self.pfs0_offset,
            pfs0_size: self.pfs0_size,
        }
    }
}

/// The superblock union of an fs-header, read by its discriminant byte.
#[derive(Debug)]
pub enum RawSuperblock {
    Pfs0(RawPfs0Superblock),
    RomFs,
    Unknown,
}

#[verifier::ext_equal]
pub ghost enum RawSuperblockV {
    Pfs0(RawPfs0SuperblockV),
    RomFs,
    Unknown,
}

impl View for RawSuperblock {
    type V = RawSuperblockV;

    open spec fn view(&self) -> RawSuperblockV {
        match self {
            RawSuperblock::Pfs0(s) => RawSuperblockV::Pfs0(s@),
            RawSuperblock::RomFs => RawSuperblockV::RomFs,
            RawSuperblock::Unknown => RawSuperblockV::Unknown,
        }
    }
}

/// One decoded fs-header block.
#[derive(Debug)]
pub struct RawFsHeader {
    pub version: u16,
    pub partition_type: u8,
    pub fs_type: u8,
    pub crypt_type: u8,
    pub superblock: RawSuperblock,
    pub section_ctr: u64,
}

#[verifier::ext_equal]
pub ghost struct RawFsHeaderV {
    pub version: u16,
    pub partition_type: u8,
    pub fs_type: u8,
    pub crypt_type: u8,
    pub superblock: RawSuperblockV,
    pub section_ctr: u64,
}

impl View for RawFsHeader {
    type V = RawFsHeaderV;

    open spec fn view(&self) -> RawFsHeaderV {
        RawFsHeaderV {
            version: self.version,
            partition_type: self.partition_type,
            fs_type: self.fs_type,
            crypt_type: self.crypt_type,
            superblock: self.superblock@,
            section_ctr: self.section_ctr,
        }
    }
}

impl RawFsHeader {
    pub open spec fn wf(&self) -> bool {
        self.superblock matches RawSuperblock::Pfs0(s) ==> s.master_hash@.len() == 32
    }
}

/// The decrypted header read as a typed record.
#[derive(Debug)]
pub struct RawNca {
    pub fixed_key_sig: Vec<u8>,
    pub npdm_sig: Vec<u8>,
    pub magic: Vec<u8>,
    pub is_gamecard: u8,
    pub content_type: u8,
    pub crypto_type: u8,
    pub key_type: u8,
    pub nca_size: u64,
    pub title_id: u64,
    pub sdk_version: u32,
    pub crypto_type2: u8,
    pub rights_id: Vec<u8>,
    pub section_entries: Vec<RawSectionEntry>,
    pub encrypted_xts_key: Vec<u8>,
    pub encrypted_ctr_key: Vec<u8>,
    pub fs_headers: Vec<Option<RawFsHeader>>,
}

#[verifier::ext_equal]
pub ghost struct RawNcaV {
    pub fixed_key_sig: Seq<u8>,
    pub npdm_sig: Seq<u8>,
    pub magic: Seq<u8>,
    pub is_gamecard: u8,
    pub content_type: u8,
    pub crypto_type: u8,
    pub key_type: u8,
    pub nca_size: u64,
    pub title_id: u64,
    pub sdk_version: u32,
    pub crypto_type2: u8,
    pub rights_id: Seq<u8>,
    pub section_entries: Seq<RawSectionEntry>,
    pub encrypted_xts_key: Seq<u8>,
    pub encrypted_ctr_key: Seq<u8>,
    pub fs_headers: Seq<Option<RawFsHeaderV>>,
}

pub open spec fn opt_fs_view(h: Option<RawFsHeader>) -> Option<RawFsHeaderV> {
    match h {
        Some(x) => Some(x@),
        None => None,
    }
}

impl View for RawNca {
    type V = RawNcaV;

    open spec fn view(&self) -> RawNcaV {
        RawNcaV {
            fixed_key_sig: self.fixed_key_sig@,
            npdm_sig: self.npdm_sig@,
            magic: self.magic@,
            is_gamecard: self.is_gamecard,
            content_type: self.content_type,
            crypto_type: self.crypto_type,
            key_type: self.key_type,
            nca_size: self.nca_size,
            title_id: self.title_id,
            sdk_version: self.sdk_version,
            crypto_type2: self.crypto_type2,
            rights_id: self.rights_id@,
            section_entries: self.section_entries@,
            encrypted_xts_key: self.encrypted_xts_key@,
            encrypted_ctr_key: self.encrypted_ctr_key@,
            fs_headers: self.fs_headers@.map_values(|h: Option<RawFsHeader>| opt_fs_view(h)),
        }
    }
}

impl RawNca {
    /// The fixed shape of a record read from a 0xC00-byte buffer.
    pub open spec fn wf(&self) -> bool {
        &&& self.fixed_key_sig@.len() == 0x100
        &&& self.npdm_sig@.len() == 0x100
        &&& self.magic@.len() == 4
        &&& self.rights_id@.len() == 16
        &&& self.section_entries@.len() == 4
        &&& self.encrypted_xts_key@.len() == 32
        &&& self.encrypted_ctr_key@.len() == 16
        &&& self.fs_headers@.len() == 4
        &&& forall|i: int|
            0 <= i < 4 ==> (#[trigger] self.fs_headers@[i] matches Some(h) ==> h.wf())
    }
}

/// The magic of the supported format: "NCA3".
pub open spec fn is_nca3_magic(m: Seq<u8>) -> bool {
    m.len() == 4 && m[0] == 0x4e && m[1] == 0x43 && m[2] == 0x41 && m[3] == 0x33
}

/// The magic of the legacy format: "NCA2".
pub open spec fn is_nca2_magic(m: Seq<u8>) -> bool {
    m.len() == 4 && m[0] == 0x4e && m[1] == 0x43 && m[2] == 0x41 && m[3] == 0x32
}

/// The magic of the ancient format: "NCA0".
pub open spec fn is_nca0_magic(m: Seq<u8>) -> bool {
    m.len() == 4 && m[0] == 0x4e && m[1] == 0x43 && m[2] == 0x41 && m[3] == 0x30
}

pub open spec fn spec_parse_section_entry(d: Seq<u8>, off: int) -> RawSectionEntry {
    RawSectionEntry {
        media_start_offset: le32_at(d, off) as u32,
        media_end_offset: le32_at(d, off + 4) as u32,
        unknown1: le32_at(d, off + 8) as u32,
        unknown2: le32_at(d, off + 12) as u32,
    }
}

pub open spec fn spec_parse_superblock(d: Seq<u8>, off: int) -> RawSuperblockV {
    if d[off + 2] == 1 {
        RawSuperblockV::Pfs0(
            RawPfs0SuperblockV {
                master_hash: d.subrange(off + 0x8, off + 0x28),
                block_size: le32_at(d, off + 0x28) as u32,
                hash_table_offset: le64_at(d, off + 0x30) as u64,
                hash_table_size: le64_at(d, off + 0x38) as u64,
                pfs0_offset: le64_at(d, off + 0x40) as u64,
                pfs0_size: le64_at(d, off + 0x48) as u64,
            },
        )
    } else if d[off + 2] == 0 {
        RawSuperblockV::RomFs
    } else {
        RawSuperblockV::Unknown
    }
}

pub open spec fn spec_parse_fs_header(d: Seq<u8>, off: int) -> RawFsHeaderV {
    RawFsHeaderV {
        version: le16_at(d, off) as u16,
        partition_type: d[off + 2],
        fs_type: d[off + 3],
        crypt_type: d[off + 4],
        superblock: spec_parse_superblock(d, off),
        section_ctr: le64_at(d, off + 0x140) as u64,
    }
}

/// The fs-header slot `i`: present exactly when its 0x200-byte block is not
/// the all-zero sparse marker.
pub open spec fn spec_fs_slot(d: Seq<u8>, i: int) -> Option<RawFsHeaderV> {
    let off = 0x400 + 0x200 * i;
    if all_zero(d.subrange(off, off + 0x200)) {
        None
    } else {
        Some(spec_parse_fs_header(d, off))
    }
}

/// The fixed-offset interpretation of a decrypted 0xC00-byte header buffer.
pub open spec fn spec_parse_raw(d: Seq<u8>) -> RawNcaV {
    RawNcaV {
        fixed_key_sig: d.subrange(0, 0x100),
        npdm_sig: d.subrange(0x100, 0x200),
        magic: d.subrange(0x200, 0x204),
        is_gamecard: d[0x204],
        content_type: d[0x205],
        crypto_type: d[0x206],
        key_type: d[0x207],
        nca_size: le64_at(d, 0x208) as u64,
        title_id: le64_at(d, 0x210) as u64,
        sdk_version: le32_at(d, 0x21c) as u32,
        crypto_type2: d[0x220],
        rights_id: d.subrange(0x230, 0x240),
        section_entries: Seq::new(4, |i: int| spec_parse_section_entry(d, 0x240 + 0x10 * i)),
        encrypted_xts_key: d.subrange(0x300, 0x320),
        encrypted_ctr_key: d.subrange(0x320, 0x330),
        fs_headers: Seq::new(4, |i: int| spec_fs_slot(d, i)),
    }
}

fn parse_section_entry(d: &Vec<u8>, off: usize) -> (r: RawSectionEntry)
    requires
        off + 0x10 <= d.len(),
    ensures
        r == spec_parse_section_entry(d@, off as int),
{
    RawSectionEntry {
        media_start_offset: read_le_u32(d, off),
        media_end_offset: read_le_u32(d, off + 4),
        unknown1: read_le_u32(d, off + 8),
        unknown2: read_le_u32(d, off + 12),
    }
}

fn parse_fs_header(d: &Vec<u8>, off: usize) -> (r: RawFsHeader)
    requires
        off + 0x200 <= d.len(),
    ensures
        r@ == spec_parse_fs_header(d@, off as int),
        r.wf(),
{
    let superblock = if d[off + 2] == 1 {
        RawSuperblock::Pfs0(
            RawPfs0Superblock {
                master_hash: copy_range(d, off + 0x8, 0x20),
                block_size: read_le_u32(d, off + 0x28),
                hash_table_offset: read_le_u64(d, off + 0x30),
                hash_table_size: read_le_u64(d, off + 0x38),
                pfs0_offset: read_le_u64(d, off + 0x40),
                pfs0_size: read_le_u64(d, off + 0x48),
            },
        )
    } else if d[off + 2] == 0 {
        RawSuperblock::RomFs
    } else {
        RawSuperblock::Unknown
    };
    RawFsHeader {
        version: read_le_u16(d, off),
        partition_type: d[off + 2],
        fs_type: d[off + 3],
        crypt_type: d[off + 4],
        superblock,
        section_ctr: read_le_u64(d, off + 0x140),
    }
}

/// Reads a fully decrypted 0xC00-byte buffer as the raw header record.
pub fn parse_raw_nca(d: &Vec<u8>) -> (r: RawNca)
    requires
        d.len() == 0xc00,
    ensures
        r@ == spec_parse_raw(d@),
        r.wf(),
{
    let mut section_entries: Vec<RawSectionEntry> = Vec::new();
    let mut i: usize = 0;
    while i < 4
        invariant
            i <= 4,
            d.len() == 0xc00,
            section_entries@.len() == i,
            forall|j: int|
                0 <= j < i ==> section_entries@[j] == spec_parse_section_entry(
                    d@,
                    0x240 + 0x10 * j,
                ),
        decreases 4 - i,
    {
        section_entries.push(parse_section_entry(d, 0x240 + 0x10 * i));
        i = i + 1;
    }
    let mut fs_headers: Vec<Option<RawFsHeader>> = Vec::new();
    let mut i: usize = 0;
    while i < 4
        invariant
            i <= 4,
            d.len() == 0xc00,
            fs_headers@.len() == i,
            forall|j: int| 0 <= j < i ==> opt_fs_view(#[trigger] fs_headers@[j]) == spec_fs_slot(
                d@,
                j,
            ),
            forall|j: int|
                0 <= j < i ==> (#[trigger] fs_headers@[j] matches Some(h) ==> h.wf()),
        decreases 4 - i,
    {
        let off = 0x400 + 0x200 * i;
        if all_zero_range(d, off, 0x200) {
            fs_headers.push(None);
        } else {
            fs_headers.push(Some(parse_fs_header(d, off)));
        }
        i = i + 1;
    }
    let r = RawNca {
        fixed_key_sig: copy_range(d, 0, 0x100),
        npdm_sig: copy_range(d, 0x100, 0x100),
        magic: copy_range(d, 0x200, 4),
        is_gamecard: d[0x204],
        content_type: d[0x205],
        crypto_type: d[0x206],
        key_type: d[0x207],
        nca_size: read_le_u64(d, 0x208),
        title_id: read_le_u64(d, 0x210),
        sdk_version: read_le_u32(d, 0x21c),
        crypto_type2: d[0x220],
        rights_id: copy_range(d, 0x230, 0x10),
        section_entries,
        encrypted_xts_key: copy_range(d, 0x300, 0x20),
        encrypted_ctr_key: copy_range(d, 0x320, 0x10),
        fs_headers,
    };
    proof {
        assert(r@.section_entries =~= spec_parse_raw(d@).section_entries);
        assert(r@.fs_headers =~= spec_parse_raw(d@).fs_headers);
        assert(r@ =~= spec_parse_raw(d@));
    }
    r
}

/// What `decrypt_header` yields on a given key set and header buffer: the
/// first 0x400 bytes decide the magic; the supported magic re-decrypts the
/// whole buffer and reads it as the raw record.
pub open spec fn spec_decrypt_header(pki: Keys, bytes: Seq<u8>) -> Result<RawNcaV, Error> {
    match pki.header_key {
        None => Err(Error::MissingKey(KeyName::HeaderKey)),
        Some(hk) => {
            let d0 = xts_decrypted(hk@, bytes.subrange(0, 0x400), 0, 0x200);
            let magic = d0.subrange(0x200, 0x204);
            if is_nca3_magic(magic) {
                Ok(spec_parse_raw(xts_decrypted(hk@, bytes, 0, 0x200)))
            } else if is_nca2_magic(magic) {
                Err(Error::UnsupportedFormat(Unsupported::Nca2))
            } else if is_nca0_magic(magic) {
                Err(Error::UnsupportedFormat(Unsupported::Nca0))
            } else {
                Err(Error::ParseError)
            }
        },
    }
}

/// Decrypts a 0xC00-byte header buffer and reads it as the raw record.
///
/// The magic is inspected on the partially decrypted buffer; the legacy
/// magics are surfaced as distinct unsupported-format errors, anything else
/// as a parse error.
pub fn decrypt_header(pki: &Keys, header: &Vec<u8>) -> (r: Result<RawNca, Error>)
    requires
        pki.wf(),
        header.len() == 0xc00,
    ensures
        match r {
            Ok(raw) => {
                &&& spec_decrypt_header(*pki, header@) == Ok::<RawNcaV, Error>(raw@)
                &&& raw.wf()
                &&& is_nca3_magic(raw@.magic)
            },
            Err(e) => spec_decrypt_header(*pki, header@) == Err::<RawNcaV, Error>(e),
        },
{
    let header_key = match &pki.header_key {
        Some(k) => k,
        None => {
            return Err(Error::MissingKey(KeyName::HeaderKey));
        },
    };
    let mut partial = copy_range(header, 0, 0x400);
    xts_decrypt_area(header_key, &mut partial, 0, 0x200);
    let ghost d0 = xts_decrypted(header_key@, header@.subrange(0, 0x400), 0, 0x200);
    let ghost magic = d0.subrange(0x200, 0x204);
    proof {
        assert(partial@ == d0);
        assert(magic[0] == d0[0x200] && magic[1] == d0[0x201] && magic[2] == d0[0x202] && magic[3]
            == d0[0x203]);
    }
    if partial[0x200] == 0x4e && partial[0x201] == 0x43 && partial[0x202] == 0x41 {
        if partial[0x203] == 0x33 {
            let mut full = copy_range(header, 0, 0xc00);
            proof {
                assert(full@ =~= header@);
            }
            xts_decrypt_area(header_key, &mut full, 0, 0x200);
            proof {
                // The partial decryption is the 0x400-byte prefix of the full
                // one, so the magic the parse sees is the magic checked above.
                assert(xts_decrypted(header_key@, header@.subrange(0, 0x400), 0, 0x200) == full@
                    .subrange(0, 0x400));
                assert(full@.subrange(0, 0x400).subrange(0x200, 0x204) =~= full@.subrange(
                    0x200,
                    0x204,
                ));
                assert(is_nca3_magic(magic));
            }
            let raw = parse_raw_nca(&full);
            proof {
                assert(raw@.magic == magic);
            }
            Ok(raw)
        } else if partial[0x203] == 0x32 {
            Err(Error::UnsupportedFormat(Unsupported::Nca2))
        } else if partial[0x203] == 0x30 {
            Err(Error::UnsupportedFormat(Unsupported::Nca0))
        } else {
            Err(Error::ParseError)
        }
    } else {
        Err(Error::ParseError)
    }
}

} // verus!
