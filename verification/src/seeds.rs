//! Seeds of the program's derived addresses.
use vstd::prelude::*;
use vstd::bytes::{spec_u32_to_le_bytes, spec_u64_to_le_bytes};
use crate::bytes::{append_bytes, append_u32, append_u64};
use crate::pubkey::Pubkey;
use crate::runtime::{
    associated_token_program_id, program_address, spec_associated_token_program_id,
    try_find_program_address,
};

verus! {

/// The byte sequences of a list of seeds.
pub open spec fn seeds_view(seeds: &Vec<Vec<u8>>) -> Seq<Seq<u8>> {
    seeds@.map_values(|v: Vec<u8>| v@)
}

/// The bytes of `"vesting"`.
pub open spec fn vesting_seed_prefix() -> Seq<u8> {
    seq![118u8, 101, 115, 116, 105, 110, 103]
}

/// The bytes of `"annual_supply"`.
pub open spec fn annual_supply_seed_prefix() -> Seq<u8> {
    seq![97u8, 110, 110, 117, 97, 108, 95, 115, 117, 112, 112, 108, 121]
}

/// Seeds of a vesting account: `"vesting"`, the destination owner, the
/// mint and the timestamp (little-endian).
pub open spec fn spec_vesting_seeds(destination_owner: Seq<u8>, mint: Seq<u8>, timestamp: u64) -> Seq<
    Seq<u8>,
> {
    seq![vesting_seed_prefix(), destination_owner, mint, spec_u64_to_le_bytes(timestamp)]
}

/// Seeds of the annual supply account of a project year:
/// `"annual_supply"` and the year (little-endian).
pub open spec fn spec_annual_supply_seeds(year: u32) -> Seq<Seq<u8>> {
    seq![annual_supply_seed_prefix(), spec_u32_to_le_bytes(year)]
}

/// Seeds of a vesting account.
pub fn vesting_seeds(destination_owner: &Pubkey, mint: &Pubkey, timestamp: u64) -> (s: Vec<
    Vec<u8>,
>)
    ensures
        seeds_view(&s) == spec_vesting_seeds(destination_owner@, mint@, timestamp),
{
    let prefix: Vec<u8> = vec![118u8, 101, 115, 116, 105, 110, 103];
    let mut ts: Vec<u8> = Vec::new();
    append_u64(&mut ts, timestamp);
    let mut s: Vec<Vec<u8>> = Vec::new();
    s.push(prefix);
    s.push(destination_owner.to_vec());
    s.push(mint.to_vec());
    s.push(ts);
    assert(ts@ =~= spec_u64_to_le_bytes(timestamp));
    assert(seeds_view(&s) =~= spec_vesting_seeds(destination_owner@, mint@, timestamp));
    s
}

/// Seeds of the annual supply account of `year`.
pub fn annual_supply_seeds(year: u32) -> (s: Vec<Vec<u8>>)
    ensures
        seeds_view(&s) == spec_annual_supply_seeds(year),
{
    let prefix: Vec<u8> = vec![97u8, 110, 110, 117, 97, 108, 95, 115, 117, 112, 112, 108, 121];
    let mut y: Vec<u8> = Vec::new();
    append_u32(&mut y, year);
    let mut s: Vec<Vec<u8>> = Vec::new();
    s.push(prefix);
    s.push(y);
    assert(y@ =~= spec_u32_to_le_bytes(year));
    assert(seeds_view(&s) =~= spec_annual_supply_seeds(year));
    s
}

/// `seeds` followed by the one-byte bump seed, as a signer presents them.
pub fn with_bump(seeds: &Vec<Vec<u8>>, bump: u8) -> (s: Vec<Vec<u8>>)
    ensures
        seeds_view(&s) == seeds_view(seeds).push(seq![bump]),
{
    let mut s: Vec<Vec<u8>> = Vec::new();
    let n = seeds.len();
    let mut i: usize = 0;
    while i < n
        invariant
            0 <= i <= n,
            n == seeds@.len(),
            s@.len() == i,
            seeds_view(&s) =~= seeds_view(seeds).take(i as int),
        decreases n - i,
    {
        let mut copy: Vec<u8> = Vec::new();
        append_bytes(&mut copy, seeds[i].as_slice());
        assert(copy@ =~= seeds@[i as int]@);
        let ghost prev = s@;
        let ghost prev_view = seeds_view(&s);
        s.push(copy);
        assert(s@ == prev.push(copy));
        assert(seeds_view(&s)[i as int] == seeds_view(seeds)[i as int]);
        assert forall|j: int| 0 <= j < i implies seeds_view(&s)[j] == seeds_view(seeds)[j] by {
            assert(s@[j] == prev[j]);
            assert(prev_view[j] == seeds_view(seeds).take(i as int)[j]);
        }
        i = i + 1;
        assert(seeds_view(&s) =~= seeds_view(seeds).take(i as int));
    }
    let last: Vec<u8> = vec![bump];
    assert(last@ =~= seq![bump]);
    s.push(last);
    assert(seeds_view(seeds).take(n as int) =~= seeds_view(seeds));
    assert(seeds_view(&s) =~= seeds_view(seeds).push(seq![bump]));
    s
}

/// Seeds of an associated token account: the wallet, the token program
/// and the mint.
pub open spec fn spec_associated_token_seeds(
    wallet: Seq<u8>,
    mint: Seq<u8>,
    token_program: Seq<u8>,
) -> Seq<Seq<u8>> {
    seq![wallet, token_program, mint]
}

/// The associated token account of `wallet` for `mint` under the token
/// program `token_program`: the address the associated token account
/// program derives from those seeds, or `None` where none derives.
pub open spec fn spec_associated_token_address(
    wallet: Seq<u8>,
    mint: Seq<u8>,
    token_program: Seq<u8>,
) -> Option<Seq<u8>> {
    match program_address(
        spec_associated_token_seeds(wallet, mint, token_program),
        spec_associated_token_program_id(),
    ) {
        Some(found) => Some(found.0),
        None => None,
    }
}

/// The associated token account address of a wallet, mint and token
/// program (see `spec_associated_token_address`).
pub fn get_associated_token_address_with_program_id(
    wallet: &Pubkey,
    mint: &Pubkey,
    token_program: &Pubkey,
) -> (r: Option<Pubkey>)
    ensures
        match r {
            Some(a) => spec_associated_token_address(wallet@, mint@, token_program@) == Some(a@),
            None => spec_associated_token_address(wallet@, mint@, token_program@) is None,
        },
{
    let mut seeds: Vec<Vec<u8>> = Vec::new();
    seeds.push(wallet.to_vec());
    seeds.push(token_program.to_vec());
    seeds.push(mint.to_vec());
    assert(seeds_view(&seeds) =~= spec_associated_token_seeds(wallet@, mint@, token_program@));
    match try_find_program_address(&seeds, &associated_token_program_id()) {
        Some((address, _bump)) => Some(address),
        None => None,
    }
}

} // verus!
