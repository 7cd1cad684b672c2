//! Parsing of NCA content-archive headers: a signed and partially encrypted
//! container format.  The pipeline decrypts the fixed-size header with the
//! platform's header key, detects the format version from the embedded magic,
//! resolves the key-area key for the container's master-key revision, unwraps
//! the container's own working keys, and decodes the table of content
//! sections together with their filesystem superblocks.

pub mod bytes;
pub mod container;
pub mod crypto;
pub mod error;
pub mod header;
pub mod keys;

pub use container::{get_master_key_revision, ContentType, CryptoType, FsType, Nca, NcaFormat, NcaJson, SectionJson, TitleId};
pub use error::{Error, KeyName, Unsupported, Validation};
pub use keys::{get_key_area_key, keys_well_formed, Aes128Key, AesXtsKey, KeyType, Keys};
