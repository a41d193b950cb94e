use crate::constants::{escrow_seed_spec, ESCROW_SEED};
use crate::state::Address;
use anchor_lang::prelude::Pubkey;
use vstd::prelude::*;

verus! {

/// The `n` low-order bytes of `x`, least significant first.
pub open spec fn le_bytes(x: nat, n: nat) -> Seq<u8>
    decreases n,
{
    if n == 0 {
        seq![]
    } else {
        seq![(x % 256) as u8] + le_bytes(x / 256, (n - 1) as nat)
    }
}

/// The little-endian bytes of `x`, as `u64::to_le_bytes` gives them.
pub fn u64_le_bytes(x: u64) -> (r: Vec<u8>)
    ensures
        r@ == le_bytes(x as nat, 8),
{
    let mut r: Vec<u8> = Vec::new();
    let mut v: u64 = x;
    let mut i: usize = 0;
    while i < 8
        invariant
            i <= 8,
            r@ + le_bytes(v as nat, (8 - i) as nat) == le_bytes(x as nat, 8),
        decreases 8 - i,
    {
        let ghost rest = le_bytes((v / 256) as nat, (8 - i - 1) as nat);
        let ghost old_r = r@;
        r.push((v % 256) as u8);
        assert(r@ + rest =~= old_r + (seq![(v % 256) as u8] + rest));
        v = v / 256;
        i = i + 1;
    }
    assert(r@ + le_bytes(v as nat, 0) =~= r@);
    r
}

/// The seeds of the escrow account of `maker` numbered `id`, without the bump.
pub open spec fn escrow_seeds_spec(maker: Seq<u8>, id: u64) -> Seq<Seq<u8>> {
    seq![escrow_seed_spec(), maker, le_bytes(id as nat, 8)]
}

/// The seeds of the escrow account of `maker` numbered `id`, with its bump: those that
/// derive its address and those with which the program signs for it.
pub open spec fn escrow_signer_seeds_spec(maker: Seq<u8>, id: u64, bump: u8) -> Seq<Seq<u8>> {
    escrow_seeds_spec(maker, id).push(seq![bump])
}

fn copy_bytes(a: &[u8]) -> (r: Vec<u8>)
    ensures
        r@ == a@,
{
    let mut r: Vec<u8> = Vec::new();
    let mut i: usize = 0;
    while i < a.len()
        invariant
            i <= a@.len(),
            r@ == a@.subrange(0, i as int),
        decreases a.len() - i,
    {
        r.push(a[i]);
        i = i + 1;
        assert(r@ =~= a@.subrange(0, i as int));
    }
    assert(a@.subrange(0, a@.len() as int) =~= a@);
    r
}

/// The seeds of the escrow account of `maker` numbered `id`, without the bump.
pub fn escrow_seeds(maker: &Address, id: u64) -> (r: Vec<Vec<u8>>)
    ensures
        seeds_view(r) == escrow_seeds_spec(maker@, id),
{
    let mut r: Vec<Vec<u8>> = Vec::new();
    r.push(copy_bytes(ESCROW_SEED.as_slice()));
    r.push(copy_bytes(maker.bytes.as_slice()));
    r.push(u64_le_bytes(id));
    assert(seeds_view(r) =~= escrow_seeds_spec(maker@, id));
    r
}

/// The seeds of the escrow account of `maker` numbered `id`, with its bump.
pub fn escrow_signer_seeds(maker: &Address, id: u64, bump: u8) -> (r: Vec<Vec<u8>>)
    ensures
        seeds_view(r) == escrow_signer_seeds_spec(maker@, id, bump),
{
    let mut r = escrow_seeds(maker, id);
    let mut b: Vec<u8> = Vec::new();
    b.push(bump);
    r.push(b);
    assert(seeds_view(r) =~= escrow_signer_seeds_spec(maker@, id, bump));
    r
}

/// A list of seeds as byte sequences.
pub open spec fn seeds_view(seeds: Vec<Vec<u8>>) -> Seq<Seq<u8>> {
    seeds@.map_values(|s: Vec<u8>| s@)
}

/// The address that `Pubkey::create_program_address` derives from `seeds` for
/// `program_id`, or `None` where it refuses them.
pub uninterp spec fn derived_address(seeds: Seq<Seq<u8>>, program_id: Seq<u8>) -> Option<Seq<u8>>;

/// The first bump from `bump` down to 1 that, appended to `seeds`, derives an address for
/// `program_id`, with that address; `None` where none does.
pub open spec fn first_bump_from(seeds: Seq<Seq<u8>>, program_id: Seq<u8>, bump: nat) -> Option<(Seq<u8>, u8)>
    decreases bump,
{
    if bump == 0 {
        None
    } else {
        match derived_address(seeds.push(seq![bump as u8]), program_id) {
            Some(a) => Some((a, bump as u8)),
            None => first_bump_from(seeds, program_id, (bump - 1) as nat),
        }
    }
}

/// The address and bump that `Pubkey::try_find_program_address` finds for `seeds` and
/// `program_id`: the first bump from 255 down to 1 that derives an address.
pub open spec fn canonical_address(seeds: Seq<Seq<u8>>, program_id: Seq<u8>) -> Option<(Seq<u8>, u8)> {
    first_bump_from(seeds, program_id, 255)
}

/// A bump found from `bump` down derives the address found with it.
pub proof fn lemma_found_bump_derives(seeds: Seq<Seq<u8>>, program_id: Seq<u8>, bump: nat)
    requires
        bump <= 255,
    ensures
        first_bump_from(seeds, program_id, bump) matches Some((a, b))
            ==> derived_address(seeds.push(seq![b]), program_id) == Some(a),
    decreases bump,
{
    if bump > 0 {
        lemma_found_bump_derives(seeds, program_id, (bump - 1) as nat);
    }
}

pub open spec fn address_view(a: Option<Address>) -> Option<Seq<u8>> {
    match a {
        Some(k) => Some(k@),
        None => None,
    }
}

/// Calls `Pubkey::create_program_address`. Claimed: the result is a function of the seeds
/// and the program id alone (`derived_address`), an error being `None`.
#[verifier::external_body]
pub(crate) fn create_program_address(seeds: &Vec<Vec<u8>>, program_id: &Address) -> (r: Option<Address>)
    ensures
        address_view(r) == derived_address(seeds_view(*seeds), program_id@),
{
    let refs: Vec<&[u8]> = seeds.iter().map(|s| s.as_slice()).collect();
    match Pubkey::create_program_address(&refs, &Pubkey::new_from_array(program_id.bytes)) {
        Ok(key) => Some(Address { bytes: key.to_bytes() }),
        Err(_) => None,
    }
}

/// Calls `Pubkey::try_find_program_address`. Claimed, as its source shows: it tries the
/// bumps from 255 down to 1 and gives the first for which `create_program_address`
/// derives an address, with that address (`canonical_address`), or `None`. (It stops
/// early only on seeds too many or too long, for which every bump fails alike.)
#[verifier::external_body]
pub(crate) fn find_program_address(seeds: &Vec<Vec<u8>>, program_id: &Address) -> (r: Option<(Address, u8)>)
    ensures
        r is Some <==> canonical_address(seeds_view(*seeds), program_id@) is Some,
        r matches Some((a, b)) ==> canonical_address(seeds_view(*seeds), program_id@) == Some((a@, b)),
{
    let refs: Vec<&[u8]> = seeds.iter().map(|s| s.as_slice()).collect();
    match Pubkey::try_find_program_address(&refs, &Pubkey::new_from_array(program_id.bytes)) {
        Some((key, bump)) => Some((Address { bytes: key.to_bytes() }, bump)),
        None => None,
    }
}

/// The associated token account program's address,
/// `ATokenGPvbdGVxr1b2hvZbsiqW5xWH25efTNsLJA8knL`.
pub open spec fn associated_token_program_spec() -> Seq<u8> {
    seq![
        140u8, 151u8, 37u8, 143u8, 78u8, 36u8, 137u8, 241u8, 187u8, 61u8, 16u8, 41u8, 20u8,
        142u8, 13u8, 131u8, 11u8, 90u8, 19u8, 153u8, 218u8, 255u8, 16u8, 132u8, 4u8, 142u8,
        123u8, 216u8, 219u8, 233u8, 248u8, 89u8,
    ]
}

/// The associated token account program's address.
pub fn associated_token_program_id() -> (r: Address)
    ensures
        r@ == associated_token_program_spec(),
{
    let r = Address {
        bytes: [
            140, 151, 37, 143, 78, 36, 137, 241, 187, 61, 16, 41, 20, 142, 13, 131, 11, 90, 19,
            153, 218, 255, 16, 132, 4, 142, 123, 216, 219, 233, 248, 89,
        ],
    };
    assert(r@ =~= associated_token_program_spec());
    r
}

/// The associated token account of `wallet` for `mint` under `token_program`: the address
/// found from the seeds `[wallet, token_program, mint]` for the associated token account
/// program.
pub open spec fn associated_token_address_spec(wallet: Seq<u8>, mint: Seq<u8>, token_program: Seq<u8>) -> Option<Seq<u8>> {
    match canonical_address(seq![wallet, token_program, mint], associated_token_program_spec()) {
        Some((a, _)) => Some(a),
        None => None,
    }
}

/// The associated token account of `wallet` for `mint` under `token_program`.
pub fn associated_token_address(wallet: &Address, mint: &Address, token_program: &Address) -> (r: Option<Address>)
    ensures
        address_view(r) == associated_token_address_spec(wallet@, mint@, token_program@),
{
    let mut seeds: Vec<Vec<u8>> = Vec::new();
    seeds.push(copy_bytes(wallet.bytes.as_slice()));
    seeds.push(copy_bytes(token_program.bytes.as_slice()));
    seeds.push(copy_bytes(mint.bytes.as_slice()));
    assert(seeds_view(seeds) =~= seq![wallet@, token_program@, mint@]);
    let program = associated_token_program_id();
    match find_program_address(&seeds, &program) {
        Some((a, _)) => Some(a),
        None => None,
    }
}

} // verus!
