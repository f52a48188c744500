//! The name of a directory's database: a hash of the directory's path that stays
//! the same from one run to the next.

use crate::path::FsPath;
use crate::text::{hex_digits, hex_text};
use vstd::prelude::*;

verus! {

/// Where FNV-1a starts.
pub const FNV_OFFSET: u64 = 0xcbf29ce484222325;

/// What FNV-1a multiplies by.
pub const FNV_PRIME: u64 = 0x100000001b3;

/// The 64-bit FNV-1a hash: every byte is mixed in by exclusive or, and the result is
/// multiplied modulo 2^64.
pub open spec fn fnv1a(bytes: Seq<u8>) -> u64
    decreases bytes.len(),
{
    if bytes.len() == 0 {
        FNV_OFFSET
    } else {
        ((fnv1a(bytes.drop_last()) ^ (bytes.last() as u64)) * FNV_PRIME % 0x1_0000_0000_0000_0000) as u64
    }
}

/// The hash of `path` in sixteen hexadecimal digits.
pub fn stable_path_hash(path: &FsPath) -> (res: String)
    ensures
        res@ == hex_digits(fnv1a(path@) as nat, 16),
        res@.len() == 16,
{
    let mut hash: u64 = FNV_OFFSET;
    let mut i: usize = 0;
    assert(path@.take(0) =~= Seq::<u8>::empty());
    while i < path.bytes.len()
        invariant
            i <= path@.len(),
            hash == fnv1a(path@.take(i as int)),
        decreases path@.len() - i,
    {
        let mixed: u64 = hash ^ (path.bytes[i] as u64);
        hash = mixed.wrapping_mul(FNV_PRIME);
        proof {
            assert(path@.take(i + 1).drop_last() =~= path@.take(i as int));
        }
        i += 1;
    }
    proof {
        assert(path@.take(path@.len() as int) =~= path@);
        crate::text::hex_digits_len(fnv1a(path@) as nat, 16);
    }
    hex_text(hash, 16)
}

} // verus!
