use vstd::prelude::*;

verus! {

pub const FNV_OFFSET: u64 = 14695981039346656037;

pub const FNV_PRIME: u64 = 1099511628211;

/// One FNV-1a round: fold a 64-bit word into the running hash.
pub open spec fn fnv_step(h: u64, v: u64) -> u64 {
    (((h ^ v) * FNV_PRIME) % 0x10000000000000000) as u64
}

/// The hash after folding in the characters of `s` from position `i` on.
pub open spec fn fnv_from(s: Seq<char>, i: int, h: u64) -> u64
    decreases s.len() - i,
{
    if i < 0 || i >= s.len() {
        h
    } else {
        fnv_from(s, i + 1, fnv_step(h, s[i] as u64))
    }
}

/// FNV-1a over the characters of a string.
pub open spec fn spec_hash(s: Seq<char>) -> u64 {
    fnv_from(s, 0, FNV_OFFSET)
}

/// FNV-1a over a 64-bit word followed by the characters of a string.
pub open spec fn spec_hash_pair(v: u64, s: Seq<char>) -> u64 {
    fnv_from(s, 0, fnv_step(FNV_OFFSET, v))
}

fn fnv_fold(s: &Vec<char>, h0: u64) -> (r: u64)
    ensures
        r == fnv_from(s@, 0, h0),
{
    let mut h: u64 = h0;
    let mut i: usize = 0;
    while i < s.len()
        invariant
            0 <= i <= s@.len(),
            fnv_from(s@, 0, h0) == fnv_from(s@, i as int, h),
        decreases s@.len() - i,
    {
        let c = s[i];
        h = (h ^ (c as u64)).wrapping_mul(FNV_PRIME);
        i = i + 1;
    }
    h
}

/// Stable 64-bit hash of a character sequence; track, artist and album ids
/// are derived from it.
pub fn hash(text: &Vec<char>) -> (r: u64)
    ensures
        r == spec_hash(text@),
{
    fnv_fold(text, FNV_OFFSET)
}

/// Stable 64-bit hash of an id together with a character sequence.
pub fn hash_list(id: u64, text: &Vec<char>) -> (r: u64)
    ensures
        r == spec_hash_pair(id, text@),
{
    let h0 = (FNV_OFFSET ^ id).wrapping_mul(FNV_PRIME);
    fnv_fold(text, h0)
}

} // verus!
