//! Cipher primitives behind trusted wrappers, and the verified key-unwrap
//! steps built on them.
//!
//! The two wrappers are the only places where the outside cipher crates are
//! called.  Their results are deterministic functions of their arguments, so
//! they are named by uninterpreted spec functions, and everything downstream
//! is verified against those names.

use crate::bytes::copy_range;
use crate::keys::{Aes128Key, AesXtsKey};
use aes::cipher::generic_array::GenericArray;
use aes::cipher::{BlockDecrypt, KeyInit};
use aes::Aes128;
use vstd::prelude::*;
use xts_mode::Xts128;

verus! {

/// The AES-128 decryption of the 16-byte `block` under the 16-byte `key`.
pub uninterp spec fn aes128_decrypted(key: Seq<u8>, block: Seq<u8>) -> Seq<u8>;

/// The XTS decryption of `data` under the 32-byte `key`, starting at sector
/// `first_sector` with `sector_size`-byte sectors and a continuing sector
/// counter.
pub uninterp spec fn xts_decrypted(
    key: Seq<u8>,
    data: Seq<u8>,
    first_sector: int,
    sector_size: int,
) -> Seq<u8>;

/// Relies on `aes::Aes128` through `cipher::BlockDecrypt::decrypt_block`: one
/// AES-128 block decryption, an in-place permutation of a 16-byte block whose
/// result depends on the key and the block alone.
#[verifier::external_body]
fn aes128_decrypt_block(key: &Aes128Key, block: &Vec<u8>) -> (r: Vec<u8>)
    requires
        key.wf(),
        block@.len() == 16,
    ensures
        r@ == aes128_decrypted(key@, block@),
        r@.len() == 16,
{
    let cipher = Aes128::new(GenericArray::from_slice(&key.bytes));
    let mut out = [0u8; 16];
    out.copy_from_slice(&block[..]);
    cipher.decrypt_block(GenericArray::from_mut_slice(&mut out));
    out.to_vec()
}

/// Relies on `xts_mode::Xts128::decrypt_area` over `aes::Aes128`, with the
/// platform's big-endian sector-number tweak: an in-place, length-preserving
/// XTS decryption.  `decrypt_area` works sector by sector, each sector
/// depending only on the key, that sector's bytes and its sector number, so
/// decrypting a sector-aligned prefix of the data yields the matching prefix
/// of the whole decryption.
#[verifier::external_body]
pub(crate) fn xts_decrypt_area(
    key: &AesXtsKey,
    buf: &mut Vec<u8>,
    first_sector: u64,
    sector_size: usize,
)
    requires
        key.wf(),
        16 <= sector_size,
        (old(buf)@.len() as int) % (sector_size as int) == 0,
    ensures
        final(buf)@ == xts_decrypted(key@, old(buf)@, first_sector as int, sector_size as int),
        final(buf)@.len() == old(buf)@.len(),
        forall|n: int|
            0 <= n <= old(buf)@.len() && n % (sector_size as int) == 0
                ==> #[trigger] xts_decrypted(
                key@,
                old(buf)@.subrange(0, n),
                first_sector as int,
                sector_size as int,
            ) == xts_decrypted(
                key@,
                old(buf)@,
                first_sector as int,
                sector_size as int,
            ).subrange(0, n),
{
    let c1 = Aes128::new(GenericArray::from_slice(&key.bytes[..0x10]));
    let c2 = Aes128::new(GenericArray::from_slice(&key.bytes[0x10..]));
    let xts = Xts128::new(c1, c2);
    xts.decrypt_area(&mut buf[..], sector_size, first_sector as u128, |i: u128| i.to_be_bytes());
}

/// The working key unwrapped from `wrapped` under the key-area key `kak`: one
/// AES block decryption.
pub open spec fn spec_derive_key(kak: Seq<u8>, wrapped: Seq<u8>) -> Seq<u8> {
    aes128_decrypted(kak, wrapped)
}

/// The XTS working key unwrapped from the 32-byte `wrapped` under `kak`: each
/// 16-byte half is unwrapped on its own.
pub open spec fn spec_derive_xts_key(kak: Seq<u8>, wrapped: Seq<u8>) -> Seq<u8> {
    aes128_decrypted(kak, wrapped.subrange(0, 16)) + aes128_decrypted(
        kak,
        wrapped.subrange(16, 32),
    )
}

/// Unwraps a 16-byte working key from its encrypted key-area blob.
pub fn derive_key(kak: &Aes128Key, wrapped: &Vec<u8>) -> (r: Aes128Key)
    requires
        kak.wf(),
        wrapped@.len() == 16,
    ensures
        r@ == spec_derive_key(kak@, wrapped@),
        r.wf(),
{
    Aes128Key { bytes: aes128_decrypt_block(kak, wrapped) }
}

/// Unwraps a 32-byte XTS working key from its encrypted key-area blob.
pub fn derive_xts_key(kak: &Aes128Key, wrapped: &Vec<u8>) -> (r: AesXtsKey)
    requires
        kak.wf(),
        wrapped@.len() == 32,
    ensures
        r@ == spec_derive_xts_key(kak@, wrapped@),
        r.wf(),
{
    let lo = copy_range(wrapped, 0, 16);
    let hi = copy_range(wrapped, 16, 16);
    let mut bytes = aes128_decrypt_block(kak, &lo);
    let mut hi_dec = aes128_decrypt_block(kak, &hi);
    let mut i: usize = 0;
    while i < hi_dec.len()
        invariant
            i <= hi_dec@.len(),
            bytes@ == aes128_decrypted(kak@, lo@) + hi_dec@.subrange(0, i as int),
        decreases hi_dec@.len() - i,
    {
        bytes.push(hi_dec[i]);
        i = i + 1;
        proof {
            assert(bytes@ =~= aes128_decrypted(kak@, lo@) + hi_dec@.subrange(0, i as int));
        }
    }
    proof {
        assert(hi_dec@.subrange(0, hi_dec@.len() as int) =~= hi_dec@);
        assert(bytes@ == spec_derive_xts_key(kak@, wrapped@));
    }
    AesXtsKey { bytes }
}

} // verus!
