use crate::keys::KeyType;
use vstd::prelude::*;

verus! {

/// Identifies the platform key that a parse step needed and could not find.
#[derive(Debug, Clone, Copy, PartialEq, Eq, Structural)]
pub enum KeyName {
    /// The fixed system key that decrypts container headers.
    HeaderKey,
    /// The key-area key of the given family at the given master-key revision.
    KeyAreaKey(KeyType, usize),
}

/// The lower-case hexadecimal digit of `n`.
pub open spec fn hex_digit(n: int) -> char {
    if n == 0 {
        '0'
    } else if n == 1 {
        '1'
    } else if n == 2 {
        '2'
    } else if n == 3 {
        '3'
    } else if n == 4 {
        '4'
    } else if n == 5 {
        '5'
    } else if n == 6 {
        '6'
    } else if n == 7 {
        '7'
    } else if n == 8 {
        '8'
    } else if n == 9 {
        '9'
    } else if n == 10 {
        'a'
    } else if n == 11 {
        'b'
    } else if n == 12 {
        'c'
    } else if n == 13 {
        'd'
    } else if n == 14 {
        'e'
    } else {
        'f'
    }
}

/// The prefix under which the key-set files list the family's key-area keys.
pub open spec fn key_family_chars(t: KeyType) -> Seq<char> {
    match t {
        KeyType::Application => "key_area_key_application_"@,
        KeyType::Ocean => "key_area_key_ocean_"@,
        KeyType::System => "key_area_key_system_"@,
    }
}

/// The printable name of a key: the fixed header key, or a family prefix
/// followed by the revision as two lower-case hexadecimal digits.
pub open spec fn key_name_chars(n: KeyName) -> Seq<char> {
    match n {
        KeyName::HeaderKey => "header_key"@,
        KeyName::KeyAreaKey(t, v) => key_family_chars(t) + seq![
            hex_digit(v as int / 16),
            hex_digit(v as int % 16),
        ],
    }
}

pub(crate) fn hex_str(n: usize) -> (r: &'static str)
    requires
        n < 16,
    ensures
        r@ == seq![hex_digit(n as int)],
{
    proof {
        reveal_strlit("0");
        reveal_strlit("1");
        reveal_strlit("2");
        reveal_strlit("3");
        reveal_strlit("4");
        reveal_strlit("5");
        reveal_strlit("6");
        reveal_strlit("7");
        reveal_strlit("8");
        reveal_strlit("9");
        reveal_strlit("a");
        reveal_strlit("b");
        reveal_strlit("c");
        reveal_strlit("d");
        reveal_strlit("e");
        reveal_strlit("f");
    }
    let r: &'static str = if n == 0 {
        "0"
    } else if n == 1 {
        "1"
    } else if n == 2 {
        "2"
    } else if n == 3 {
        "3"
    } else if n == 4 {
        "4"
    } else if n == 5 {
        "5"
    } else if n == 6 {
        "6"
    } else if n == 7 {
        "7"
    } else if n == 8 {
        "8"
    } else if n == 9 {
        "9"
    } else if n == 10 {
        "a"
    } else if n == 11 {
        "b"
    } else if n == 12 {
        "c"
    } else if n == 13 {
        "d"
    } else if n == 14 {
        "e"
    } else {
        "f"
    };
    proof {
        assert(r@ =~= seq![hex_digit(n as int)]);
    }
    r
}

impl KeyName {
    /// Renders the key's name as the platform key-set files spell it: the
    /// revision is written as two lower-case hexadecimal digits.
    pub fn name(&self) -> (r: String)
        requires
            self matches KeyName::KeyAreaKey(_, v) ==> v < 256,
        ensures
            r@ == key_name_chars(*self),
    {
        match self {
            KeyName::HeaderKey => String::from_str("header_key"),
            KeyName::KeyAreaKey(t, v) => {
                let mut s = match t {
                    KeyType::Application => String::from_str("key_area_key_application_"),
                    KeyType::Ocean => String::from_str("key_area_key_ocean_"),
                    KeyType::System => String::from_str("key_area_key_system_"),
                };
                s.append(hex_str(*v / 16));
                s.append(hex_str(*v % 16));
                proof {
                    assert(s@ =~= key_name_chars(*self));
                }
                s
            },
        }
    }
}

/// A recognized but unimplemented decoding path.
#[derive(Debug, Clone, Copy, PartialEq, Eq, Structural)]
pub enum Unsupported {
    /// The legacy format whose fs-header blocks are encrypted one by one.
    Nca2,
    /// The ancient format with a distinct historical layout.
    Nca0,
    /// Key derivation through a title-specific rights identifier.
    RightsId,
}

/// A structurally present but semantically invalid header field.
#[derive(Debug, Clone, Copy, PartialEq, Eq, Structural)]
pub enum Validation {
    /// An fs-header reported a header-format version other than 2.
    FsHeaderVersion(u16),
    /// An fs-header superblock carried an unsupported discriminant byte.
    SuperblockKind(u8),
    /// The key-type byte named no known key family.
    KeyTypeValue(u8),
}

/// Why a container could not be decoded.
#[derive(Debug, Clone, Copy, PartialEq, Eq, Structural)]
pub enum Error {
    /// A required platform key is absent from the key set.
    MissingKey(KeyName),
    /// The header magic matches no known format: the input is not a container.
    ParseError,
    /// A recognized but unimplemented layout or derivation path.
    UnsupportedFormat(Unsupported),
    /// A header field holds a value the supported path cannot accept.
    ValidationError(Validation),
}

} // verus!
