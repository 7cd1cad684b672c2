//! Fixed-offset readers over byte buffers, with their little-endian
//! interpretation stated as spec functions.

use vstd::prelude::*;

verus! {

/// The value of the two bytes at `i` read as a little-endian integer.
pub open spec fn le16_at(b: Seq<u8>, i: int) -> int {
    b[i] + b[i + 1] * 0x100
}

/// The value of the four bytes at `i` read as a little-endian integer.
pub open spec fn le32_at(b: Seq<u8>, i: int) -> int {
    b[i] + b[i + 1] * 0x100 + b[i + 2] * 0x10000 + b[i + 3] * 0x1000000
}

/// The value of the eight bytes at `i` read as a little-endian integer.
pub open spec fn le64_at(b: Seq<u8>, i: int) -> int {
    b[i] + b[i + 1] * 0x100 + b[i + 2] * 0x10000 + b[i + 3] * 0x1000000
        + b[i + 4] * 0x100000000 + b[i + 5] * 0x10000000000
        + b[i + 6] * 0x1000000000000 + b[i + 7] * 0x100000000000000
}

/// Every byte of `s` is zero.
pub open spec fn all_zero(s: Seq<u8>) -> bool {
    forall|i: int| 0 <= i < s.len() ==> s[i] == 0
}

pub fn read_le_u16(b: &Vec<u8>, off: usize) -> (r: u16)
    requires
        off + 2 <= b.len(),
    ensures
        r == le16_at(b@, off as int),
{
    (b[off] as u16) + (b[off + 1] as u16) * 0x100
}

pub fn read_le_u32(b: &Vec<u8>, off: usize) -> (r: u32)
    requires
        off + 4 <= b.len(),
    ensures
        r == le32_at(b@, off as int),
{
    (b[off] as u32) + (b[off + 1] as u32) * 0x100 + (b[off + 2] as u32) * 0x10000
        + (b[off + 3] as u32) * 0x1000000
}

pub fn read_le_u64(b: &Vec<u8>, off: usize) -> (r: u64)
    requires
        off + 8 <= b.len(),
    ensures
        r == le64_at(b@, off as int),
{
    (b[off] as u64) + (b[off + 1] as u64) * 0x100 + (b[off + 2] as u64) * 0x10000
        + (b[off + 3] as u64) * 0x1000000 + (b[off + 4] as u64) * 0x100000000
        + (b[off + 5] as u64) * 0x10000000000 + (b[off + 6] as u64) * 0x1000000000000
        + (b[off + 7] as u64) * 0x100000000000000
}

/// Copies `len` bytes of `b` starting at `start` into a fresh buffer.
pub fn copy_range(b: &Vec<u8>, start: usize, len: usize) -> (r: Vec<u8>)
    requires
        start + len <= b.len(),
    ensures
        r@ == b@.subrange(start as int, start as int + len as int),
{
    let mut r: Vec<u8> = Vec::new();
    let mut i: usize = 0;
    while i < len
        invariant
            i <= len,
            start + len <= b.len(),
            r@ == b@.subrange(start as int, start as int + i as int),
        decreases len - i,
    {
        r.push(b[start + i]);
        i = i + 1;
        proof {
            assert(r@ =~= b@.subrange(start as int, start as int + i as int));
        }
    }
    r
}

/// Copies a whole buffer.
pub fn copy_bytes(b: &Vec<u8>) -> (r: Vec<u8>)
    ensures
        r@ == b@,
{
    let r = copy_range(b, 0, b.len());
    proof {
        assert(b@.subrange(0, b@.len() as int) =~= b@);
    }
    r
}

/// Reports whether the `len` bytes of `b` starting at `start` are all zero.
pub fn all_zero_range(b: &Vec<u8>, start: usize, len: usize) -> (r: bool)
    requires
        start + len <= b.len(),
    ensures
        r == all_zero(b@.subrange(start as int, start as int + len as int)),
{
    let ghost s = b@.subrange(start as int, start as int + len as int);
    let mut i: usize = 0;
    while i < len
        invariant
            i <= len,
            start + len <= b.len(),
            s == b@.subrange(start as int, start as int + len as int),
            forall|j: int| 0 <= j < i ==> s[j] == 0,
        decreases len - i,
    {
        if b[start + i] != 0 {
            proof {
                assert(s[i as int] != 0);
            }
            return false;
        }
        i = i + 1;
    }
    true
}

} // verus!
