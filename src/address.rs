//! Account addresses and the program-derived authority of an escrow.
use anchor_lang::prelude::Pubkey;
use vstd::prelude::*;

verus! {

/// A 32-byte account address.
pub type Address = [u8; 32];

/// The fixed tag that starts the seed material of every escrow.
pub open spec fn escrow_tag() -> Seq<u8> {
    seq![101u8, 115u8, 99u8, 114u8, 111u8, 119u8]
}

/// Little-endian encoding of a 64-bit value: byte `i` holds bits `8i..8i+8`.
pub open spec fn le_bytes(x: u64) -> Seq<u8> {
    Seq::new(8, |i: int| (x >> (8 * i) as u64) as u8)
}

/// The seed material of an escrow: tag, maker address, seed in little-endian
/// order, bump, in that order.
pub open spec fn escrow_seeds(maker: Seq<u8>, seed: u64, bump: u8) -> Seq<Seq<u8>> {
    seq![escrow_tag(), maker, le_bytes(seed), seq![bump]]
}

/// The address that the ledger derives from seed material and a program id,
/// or `None` where the seeds are rejected (too many or too long seeds, or a
/// hash that lies on the curve).
pub uninterp spec fn program_address_of(seeds: Seq<Seq<u8>>, program_id: Seq<u8>) -> Option<Seq<u8>>;

/// The authority that governs the vault of the escrow `(maker, seed, bump)`.
pub open spec fn escrow_authority(program_id: Seq<u8>, maker: Seq<u8>, seed: u64, bump: u8) -> Option<Seq<u8>> {
    program_address_of(escrow_seeds(maker, seed, bump), program_id)
}

/// Relies on `Pubkey::create_program_address` (anchor_lang's re-export of
/// solana-pubkey) to derive a program address: its result depends on the
/// seeds and the program id alone; an `Err` becomes `None`.
#[verifier::external_body]
fn create_program_address(seeds: &Vec<Vec<u8>>, program_id: &Address) -> (r: Option<Address>)
    ensures
        r matches Some(a) ==> program_address_of(seeds@.map_values(|v: Vec<u8>| v@), program_id@) == Some(a@),
        r is None ==> program_address_of(seeds@.map_values(|v: Vec<u8>| v@), program_id@) is None,
{
    let slices: Vec<&[u8]> = seeds.iter().map(|s| s.as_slice()).collect();
    let program = Pubkey::new_from_array(*program_id);
    Pubkey::create_program_address(&slices, &program).ok().map(|k| k.to_bytes())
}

/// Whether two addresses are the same.
pub fn same_address(a: &Address, b: &Address) -> (r: bool)
    ensures
        r == (a@ == b@),
{
    let mut i: usize = 0;
    while i < 32
        invariant
            i <= 32,
            forall|j: int| 0 <= j < i ==> a@[j] == b@[j],
        decreases 32 - i,
    {
        if a[i] != b[i] {
            return false;
        }
        i = i + 1;
    }
    assert(a@ =~= b@);
    true
}

/// The eight little-endian bytes of `x`.
pub fn seed_le_bytes(x: u64) -> (r: Vec<u8>)
    ensures
        r@ == le_bytes(x),
{
    let mut r: Vec<u8> = Vec::new();
    let mut i: u64 = 0;
    while i < 8
        invariant
            i <= 8,
            r@ == le_bytes(x).take(i as int),
        decreases 8 - i,
    {
        r.push((x >> (8 * i)) as u8);
        i = i + 1;
        assert(r@ =~= le_bytes(x).take(i as int));
    }
    assert(r@ =~= le_bytes(x));
    r
}

/// The seed material from which the authority of the escrow
/// `(maker, seed, bump)` is derived.
pub fn signer_seeds(maker: &Address, seed: u64, bump: u8) -> (r: Vec<Vec<u8>>)
    ensures
        r@.map_values(|v: Vec<u8>| v@) == escrow_seeds(maker@, seed, bump),
{
    let tag: Vec<u8> = vec![101u8, 115u8, 99u8, 114u8, 111u8, 119u8];
    let mut owner: Vec<u8> = Vec::new();
    let mut i: usize = 0;
    while i < 32
        invariant
            i <= 32,
            owner@ == maker@.take(i as int),
        decreases 32 - i,
    {
        owner.push(maker[i]);
        i = i + 1;
        assert(owner@ =~= maker@.take(i as int));
    }
    assert(owner@ =~= maker@);
    let le = seed_le_bytes(seed);
    let b: Vec<u8> = vec![bump];
    assert(tag@ =~= escrow_tag());
    assert(b@ =~= seq![bump]);
    let ghost parts = seq![tag, owner, le, b];
    let r: Vec<Vec<u8>> = vec![tag, owner, le, b];
    assert(r@ == parts);
    assert(r@.map_values(|v: Vec<u8>| v@) =~= escrow_seeds(maker@, seed, bump));
    r
}

/// The authority that governs the vault of the escrow `(maker, seed, bump)`
/// under `program_id`, or `None` where the seed material has no address.
pub fn derive_authority(program_id: &Address, maker: &Address, seed: u64, bump: u8) -> (r: Option<Address>)
    ensures
        r matches Some(a) ==> escrow_authority(program_id@, maker@, seed, bump) == Some(a@),
        r is None ==> escrow_authority(program_id@, maker@, seed, bump) is None,
{
    let seeds = signer_seeds(maker, seed, bump);
    create_program_address(&seeds, program_id)
}

} // verus!
