//! The platform key set and key-area key resolution.

use crate::bytes::copy_bytes;
use crate::error::{Error, KeyName};
use vstd::prelude::*;

verus! {

/// The family of key-area keys a container derives its working keys from.
#[derive(Debug, Clone, Copy, PartialEq, Eq, Structural)]
pub enum KeyType {
    Application,
    Ocean,
    System,
}

/// A 128-bit symmetric key.
#[derive(Debug, PartialEq, Eq)]
pub struct Aes128Key {
    pub bytes: Vec<u8>,
}

impl View for Aes128Key {
    type V = Seq<u8>;

    open spec fn view(&self) -> Seq<u8> {
        self.bytes@
    }
}

impl Aes128Key {
    pub open spec fn wf(&self) -> bool {
        self.bytes@.len() == 16
    }
}

/// A 256-bit key for the XTS cipher mode: two 128-bit halves.
#[derive(Debug, PartialEq, Eq)]
pub struct AesXtsKey {
    pub bytes: Vec<u8>,
}

impl View for AesXtsKey {
    type V = Seq<u8>;

    open spec fn view(&self) -> Seq<u8> {
        self.bytes@
    }
}

impl AesXtsKey {
    pub open spec fn wf(&self) -> bool {
        self.bytes@.len() == 32
    }
}

/// The platform key set: the fixed header key and one table of optional
/// key-area keys per family, indexed by master-key revision.
pub struct Keys {
    pub header_key: Option<AesXtsKey>,
    pub key_area_key_application: Vec<Option<Aes128Key>>,
    pub key_area_key_ocean: Vec<Option<Aes128Key>>,
    pub key_area_key_system: Vec<Option<Aes128Key>>,
}

pub open spec fn table_wf(t: Seq<Option<Aes128Key>>) -> bool {
    forall|i: int| 0 <= i < t.len() ==> (#[trigger] t[i] matches Some(k) ==> k.wf())
}

impl Keys {
    /// Every key that is present has the length its cipher expects.
    pub open spec fn wf(&self) -> bool {
        &&& (self.header_key matches Some(k) ==> k.wf())
        &&& table_wf(self.key_area_key_application@)
        &&& table_wf(self.key_area_key_ocean@)
        &&& table_wf(self.key_area_key_system@)
    }
}

/// The table of the given family.
pub open spec fn spec_key_table(pki: Keys, key_type: KeyType) -> Seq<Option<Aes128Key>> {
    match key_type {
        KeyType::Application => pki.key_area_key_application@,
        KeyType::Ocean => pki.key_area_key_ocean@,
        KeyType::System => pki.key_area_key_system@,
    }
}

/// The key-area key held for `key_type` at `key_version`, if any; an index
/// beyond the table means the key is absent.
pub open spec fn spec_key_area_key(pki: Keys, key_version: int, key_type: KeyType) -> Option<
    Seq<u8>,
> {
    let table = spec_key_table(pki, key_type);
    if 0 <= key_version < table.len() {
        match table[key_version] {
            Some(k) => Some(k@),
            None => None,
        }
    } else {
        None
    }
}

/// Resolves the key-area key of the given family at the given revision, or
/// fails with a `MissingKey` error naming exactly that lookup.
pub fn get_key_area_key(pki: &Keys, key_version: usize, key_type: KeyType) -> (r: Result<
    Aes128Key,
    Error,
>)
    requires
        pki.wf(),
    ensures
        match r {
            Ok(k) => spec_key_area_key(*pki, key_version as int, key_type) == Some(k@) && k.wf(),
            Err(e) => {
                &&& spec_key_area_key(*pki, key_version as int, key_type) is None
                &&& e == Error::MissingKey(KeyName::KeyAreaKey(key_type, key_version))
            },
        },
{
    let table: &Vec<Option<Aes128Key>> = match key_type {
        KeyType::Application => &pki.key_area_key_application,
        KeyType::Ocean => &pki.key_area_key_ocean,
        KeyType::System => &pki.key_area_key_system,
    };
    if key_version < table.len() {
        match &table[key_version] {
            Some(k) => Ok(Aes128Key { bytes: copy_bytes(&k.bytes) }),
            None => Err(Error::MissingKey(KeyName::KeyAreaKey(key_type, key_version))),
        }
    } else {
        Err(Error::MissingKey(KeyName::KeyAreaKey(key_type, key_version)))
    }
}

fn table_well_formed(t: &Vec<Option<Aes128Key>>) -> (b: bool)
    ensures
        b == table_wf(t@),
{
    let mut i: usize = 0;
    while i < t.len()
        invariant
            i <= t@.len(),
            forall|j: int| 0 <= j < i ==> (#[trigger] t@[j] matches Some(k) ==> k.wf()),
        decreases t@.len() - i,
    {
        match &t[i] {
            Some(k) => {
                if k.bytes.len() != 16 {
                    proof {
                        assert(t@[i as int] matches Some(k2) && !k2.wf());
                    }
                    return false;
                }
            },
            None => {},
        }
        i = i + 1;
    }
    true
}

/// Checks at run time that a key set satisfies `Keys::wf`, so that unverified
/// callers can establish the precondition of the parsing entry points.
pub fn keys_well_formed(pki: &Keys) -> (b: bool)
    ensures
        b == pki.wf(),
{
    let header_ok = match &pki.header_key {
        Some(k) => k.bytes.len() == 32,
        None => true,
    };
    header_ok && table_well_formed(&pki.key_area_key_application)
        && table_well_formed(&pki.key_area_key_ocean) && table_well_formed(
        &pki.key_area_key_system,
    )
}

} // verus!
