//! Program derived addresses: the seed schemes of the deal's accounts, and the
//! address derivation of the Solana runtime.

use anchor_lang::prelude::Pubkey;
use vstd::prelude::*;

use crate::keys::{key_bytes, le_bytes, lemma_le_bytes_len, u64_le_bytes, Key};

verus! {

/// The address that `Pubkey::create_program_address` derives from `seeds`
/// under `program_id`; `None` where the hash lies on the ed25519 curve.
pub uninterp spec fn derived_program_address(seeds: Seq<Seq<u8>>, program_id: Seq<u8>) -> Option<
    Seq<u8>,
>;

/// The address and bump seed that `Pubkey::try_find_program_address` finds for
/// `seeds` under `program_id`; `None` where no bump seed gives an address.
pub uninterp spec fn found_program_address(seeds: Seq<Seq<u8>>, program_id: Seq<u8>) -> Option<
    (Seq<u8>, u8),
>;

/// Whether `seeds`, with `extra` more seeds of one byte, stay within the
/// runtime's limits of 16 seeds of at most 32 bytes each.
pub open spec fn seeds_within_limits(seeds: Seq<Seq<u8>>, extra: nat) -> bool {
    &&& seeds.len() + extra <= 16
    &&& forall|i: int| 0 <= i < seeds.len() ==> #[trigger] seeds[i].len() <= 32
}

/// The spec view of an address found with its bump seed.
pub open spec fn found_view(found: Option<(Key, u8)>) -> Option<(Seq<u8>, u8)> {
    match found {
        Some((key, bump)) => Some((key@, bump)),
        None => None,
    }
}

/// Calls `Pubkey::create_program_address`. Trusted: the result is the named
/// derivation of these seeds under this program id, with `None` for the
/// runtime's refusal (the hash lies on the curve). The seed limits are
/// required, so the refusal for too many or too long seeds does not arise.
#[verifier::external_body]
pub(crate) fn create_program_address(seeds: &Vec<Vec<u8>>, program_id: &Key) -> (res: Option<Key>)
    requires
        seeds_within_limits(seeds.deep_view(), 0),
    ensures
        res matches Some(key) ==> derived_program_address(seeds.deep_view(), program_id@) == Some(
            key@,
        ),
        res is None ==> derived_program_address(seeds.deep_view(), program_id@) is None,
{
    let refs: Vec<&[u8]> = seeds.iter().map(|s| s.as_slice()).collect();
    match Pubkey::create_program_address(&refs, &Pubkey::new_from_array(*program_id)) {
        Ok(key) => Some(key.to_bytes()),
        Err(_) => None,
    }
}

/// Calls `Pubkey::try_find_program_address`. Trusted: the result is the named
/// search for these seeds under this program id; where it finds an address,
/// that address is what `create_program_address` derives from the seeds with
/// the found bump seed appended (the search returns exactly that result).
/// Which bump seed the search settles on (the first from 255 downwards that
/// gives an address) is left unsaid.
#[verifier::external_body]
pub(crate) fn find_program_address(seeds: &Vec<Vec<u8>>, program_id: &Key) -> (res: Option<(Key, u8)>)
    requires
        seeds_within_limits(seeds.deep_view(), 1),
    ensures
        found_view(res) == found_program_address(seeds.deep_view(), program_id@),
        res matches Some((key, bump)) ==> derived_program_address(
            seeds.deep_view().push(seq![bump]),
            program_id@,
        ) == Some(key@),
{
    let refs: Vec<&[u8]> = seeds.iter().map(|s| s.as_slice()).collect();
    match Pubkey::try_find_program_address(&refs, &Pubkey::new_from_array(*program_id)) {
        Some((key, bump)) => Some((key.to_bytes(), bump)),
        None => None,
    }
}

/// The ASCII bytes of `state`.
pub open spec fn state_tag() -> Seq<u8> {
    seq![115u8, 116u8, 97u8, 116u8, 101u8]
}

/// The ASCII bytes of `wallet`.
pub open spec fn wallet_tag() -> Seq<u8> {
    seq![119u8, 97u8, 108u8, 108u8, 101u8, 116u8]
}

/// The ASCII bytes of `lprovider`.
pub open spec fn lprovider_tag() -> Seq<u8> {
    seq![108u8, 112u8, 114u8, 111u8, 118u8, 105u8, 100u8, 101u8, 114u8]
}

/// Seeds of a deal's state account: `state`, underwriter, borrower, mint and
/// the little-endian application index.
pub open spec fn deal_state_seeds(underwriter: Seq<u8>, borrower: Seq<u8>, mint: Seq<u8>, idx: u64) -> Seq<
    Seq<u8>,
> {
    seq![state_tag(), underwriter, borrower, mint, le_bytes(idx)]
}

/// Seeds of a deal's token wallet: `wallet`, underwriter, borrower, mint and
/// the little-endian application index.
pub open spec fn deal_wallet_seeds(underwriter: Seq<u8>, borrower: Seq<u8>, mint: Seq<u8>, idx: u64) -> Seq<
    Seq<u8>,
> {
    seq![wallet_tag(), underwriter, borrower, mint, le_bytes(idx)]
}

/// Seeds of a liquidity provider's account: `lprovider`, the deal's state
/// account, the provider and the little-endian application index.
pub open spec fn lprovider_seeds(deal_state: Seq<u8>, provider: Seq<u8>, idx: u64) -> Seq<Seq<u8>> {
    seq![lprovider_tag(), deal_state, provider, le_bytes(idx)]
}

/// `seeds` with the bump seed appended as a seed of one byte.
pub open spec fn with_bump(seeds: Seq<Seq<u8>>, bump: u8) -> Seq<Seq<u8>> {
    seeds.push(seq![bump])
}

fn tag_bytes_state() -> (tag: Vec<u8>)
    ensures
        tag@ == state_tag(),
{
    let tag: Vec<u8> = vec![115u8, 116u8, 97u8, 116u8, 101u8];
    assert(tag@ =~= state_tag());
    tag
}

fn tag_bytes_wallet() -> (tag: Vec<u8>)
    ensures
        tag@ == wallet_tag(),
{
    let tag: Vec<u8> = vec![119u8, 97u8, 108u8, 108u8, 101u8, 116u8];
    assert(tag@ =~= wallet_tag());
    tag
}

fn tag_bytes_lprovider() -> (tag: Vec<u8>)
    ensures
        tag@ == lprovider_tag(),
{
    let tag: Vec<u8> = vec![108u8, 112u8, 114u8, 111u8, 118u8, 105u8, 100u8, 101u8, 114u8];
    assert(tag@ =~= lprovider_tag());
    tag
}

/// The deep view of a vector of seeds is the sequence of the seeds' bytes.
proof fn lemma_seeds_deep_view(seeds: Vec<Vec<u8>>)
    ensures
        seeds.deep_view() == seeds@.map_values(|s: Vec<u8>| s@),
{
    assert forall|i: int| 0 <= i < seeds@.len() implies #[trigger] seeds@[i].deep_view()
        == seeds@[i]@ by {
        assert(seeds@[i].deep_view() =~= seeds@[i]@);
    }
    assert(seeds.deep_view() =~= seeds@.map_values(|s: Vec<u8>| s@));
}

/// Builds `tag` followed by three keys and the encoded index.
fn three_key_seeds(tag: Vec<u8>, a: &Key, b: &Key, c: &Key, idx: u64) -> (seeds: Vec<Vec<u8>>)
    ensures
        seeds.deep_view() == seq![tag@, a@, b@, c@, le_bytes(idx)],
        tag@.len() <= 32 ==> seeds_within_limits(seeds.deep_view(), 1),
{
    proof {
        lemma_le_bytes_len(idx);
    }
    let mut seeds: Vec<Vec<u8>> = Vec::new();
    seeds.push(tag);
    seeds.push(key_bytes(a));
    seeds.push(key_bytes(b));
    seeds.push(key_bytes(c));
    seeds.push(u64_le_bytes(idx));
    proof {
        lemma_seeds_deep_view(seeds);
    }
    assert(seeds@.map_values(|s: Vec<u8>| s@) =~= seq![tag@, a@, b@, c@, le_bytes(idx)]);
    seeds
}

/// The seeds of a deal's state account.
pub fn deal_state_seed_bytes(underwriter: &Key, borrower: &Key, mint: &Key, idx: u64) -> (seeds: Vec<
    Vec<u8>,
>)
    ensures
        seeds.deep_view() == deal_state_seeds(underwriter@, borrower@, mint@, idx),
        seeds_within_limits(seeds.deep_view(), 1),
{
    three_key_seeds(tag_bytes_state(), underwriter, borrower, mint, idx)
}

/// The seeds of a deal's token wallet.
pub fn deal_wallet_seed_bytes(underwriter: &Key, borrower: &Key, mint: &Key, idx: u64) -> (seeds: Vec<
    Vec<u8>,
>)
    ensures
        seeds.deep_view() == deal_wallet_seeds(underwriter@, borrower@, mint@, idx),
        seeds_within_limits(seeds.deep_view(), 1),
{
    three_key_seeds(tag_bytes_wallet(), underwriter, borrower, mint, idx)
}

/// The seeds of a liquidity provider's account.
pub fn lprovider_seed_bytes(deal_state: &Key, provider: &Key, idx: u64) -> (seeds: Vec<Vec<u8>>)
    ensures
        seeds.deep_view() == lprovider_seeds(deal_state@, provider@, idx),
        seeds_within_limits(seeds.deep_view(), 1),
{
    proof {
        lemma_le_bytes_len(idx);
    }
    let mut seeds: Vec<Vec<u8>> = Vec::new();
    seeds.push(tag_bytes_lprovider());
    seeds.push(key_bytes(deal_state));
    seeds.push(key_bytes(provider));
    seeds.push(u64_le_bytes(idx));
    proof {
        lemma_seeds_deep_view(seeds);
    }
    assert(seeds@.map_values(|s: Vec<u8>| s@) =~= lprovider_seeds(deal_state@, provider@, idx));
    seeds
}

/// Appends the bump seed to `seeds`, as a seed of one byte.
pub fn push_bump(seeds: &mut Vec<Vec<u8>>, bump: u8)
    ensures
        final(seeds).deep_view() == with_bump(old(seeds).deep_view(), bump),
        seeds_within_limits(old(seeds).deep_view(), 1) ==> seeds_within_limits(
            final(seeds).deep_view(),
            0,
        ),
{
    let one: Vec<u8> = vec![bump];
    assert(one@ =~= seq![bump]);
    proof {
        lemma_seeds_deep_view(*seeds);
    }
    seeds.push(one);
    proof {
        lemma_seeds_deep_view(*seeds);
    }
    assert(seeds@.map_values(|s: Vec<u8>| s@) =~= with_bump(
        old(seeds)@.map_values(|s: Vec<u8>| s@),
        bump,
    ));
}

} // verus!
