//! Account keys and the byte encodings used in address seeds.

use vstd::prelude::*;

verus! {

/// An account key: the 32 bytes of a public key.
pub type Key = [u8; 32];

/// Whether two keys are the same.
pub fn keys_equal(a: &Key, b: &Key) -> (eq: bool)
    ensures
        eq == (a@ == b@),
{
    let mut i: usize = 0;
    while i < 32
        invariant
            0 <= i <= 32,
            a@.len() == 32,
            b@.len() == 32,
            forall|j: int| 0 <= j < i ==> a@[j] == b@[j],
        decreases 32 - i,
    {
        if a[i] != b[i] {
            assert(a@[i as int] != b@[i as int]);
            return false;
        }
        i = i + 1;
    }
    assert(a@ =~= b@);
    true
}

/// The first `n` base-256 digits of `x`, least significant first.
pub open spec fn le_digits(x: nat, n: nat) -> Seq<u8>
    decreases n,
{
    if n == 0 {
        Seq::empty()
    } else {
        seq![(x % 256) as u8] + le_digits(x / 256, (n - 1) as nat)
    }
}

/// There are `n` digits.
pub proof fn lemma_le_digits_len(x: nat, n: nat)
    ensures
        le_digits(x, n).len() == n,
    decreases n,
{
    if n > 0 {
        lemma_le_digits_len(x / 256, (n - 1) as nat);
    }
}

/// The little-endian encoding of a `u64`, as `u64::to_le_bytes` gives it.
pub open spec fn le_bytes(x: u64) -> Seq<u8> {
    le_digits(x as nat, 8)
}

/// The encoding of a `u64` has 8 bytes.
pub proof fn lemma_le_bytes_len(x: u64)
    ensures
        le_bytes(x).len() == 8,
{
    lemma_le_digits_len(x as nat, 8);
}

/// The little-endian encoding of `x`.
pub fn u64_le_bytes(x: u64) -> (bytes: Vec<u8>)
    ensures
        bytes@ == le_bytes(x),
{
    let mut bytes: Vec<u8> = Vec::new();
    let mut rest: u64 = x;
    let mut i: usize = 0;
    while i < 8
        invariant
            0 <= i <= 8,
            bytes@ + le_digits(rest as nat, (8 - i) as nat) == le_digits(x as nat, 8),
        decreases 8 - i,
    {
        let ghost before = bytes@;
        assert(le_digits(rest as nat, (8 - i) as nat) == seq![(rest % 256) as u8] + le_digits(
            (rest / 256) as nat,
            (8 - i - 1) as nat,
        ));
        bytes.push((rest % 256) as u8);
        assert(before + le_digits(rest as nat, (8 - i) as nat) =~= bytes@ + le_digits(
            (rest / 256) as nat,
            (8 - i - 1) as nat,
        ));
        rest = rest / 256;
        i = i + 1;
    }
    assert(le_digits(rest as nat, 0) =~= Seq::<u8>::empty());
    assert(bytes@ + Seq::<u8>::empty() =~= bytes@);
    bytes
}

/// The bytes of a key, as a vector.
pub fn key_bytes(key: &Key) -> (bytes: Vec<u8>)
    ensures
        bytes@ == key@,
{
    vstd::slice::slice_to_vec(key)
}

} // verus!
