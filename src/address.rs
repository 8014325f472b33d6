use vstd::prelude::*;

verus! {

/// A 32-byte public identifier of an account or a program.
pub type Address = [u8; 32];

/// What the canonical program-address search gives for a seed list and a
/// program: the derived address and its bump, or nothing when no bump works.
pub uninterp spec fn derived_address(seeds: Seq<Seq<u8>>, program: Seq<u8>) -> Option<(Seq<u8>, u8)>;

pub open spec fn seeds_view(seeds: Seq<Vec<u8>>) -> Seq<Seq<u8>> {
    seeds.map_values(|s: Vec<u8>| s@)
}

pub open spec fn found_view(r: Option<([u8; 32], u8)>) -> Option<(Seq<u8>, u8)> {
    match r {
        Some((a, b)) => Some((a@, b)),
        None => None,
    }
}

/// Relies on `Pubkey::try_find_program_address` of solana-program: the
/// search depends on the seeds and the program alone.
#[verifier::external_body]
fn try_find_program_address(seeds: &Vec<Vec<u8>>, program: &Address) -> (r: Option<([u8; 32], u8)>)
    ensures
        found_view(r) == derived_address(seeds_view(seeds@), program@),
{
    let parts: Vec<&[u8]> = seeds.iter().map(|s| s.as_slice()).collect();
    let program = solana_program::pubkey::Pubkey::new_from_array(*program);
    solana_program::pubkey::Pubkey::try_find_program_address(&parts, &program)
        .map(|(a, b)| (a.to_bytes(), b))
}

/// The system program's identifier: all zero bytes. A whitelist slot that
/// holds it stands for "no entry".
pub open spec fn system_program_spec() -> Seq<u8> {
    Seq::new(32, |i: int| 0u8)
}

pub fn system_program() -> (r: Address)
    ensures
        r@ == system_program_spec(),
{
    let r: [u8; 32] = [0u8; 32];
    assert(r@ =~= system_program_spec());
    r
}

/// Byte-wise equality of two identifiers.
pub fn same_address(a: &Address, b: &Address) -> (r: bool)
    ensures
        r == (a@ == b@),
{
    let mut i: usize = 0;
    while i < 32
        invariant
            i <= 32,
            a@.len() == 32,
            b@.len() == 32,
            forall|j: int| 0 <= j < i ==> a@[j] == b@[j],
        decreases 32 - i,
    {
        if a[i] != b[i] {
            return false;
        }
        i = i + 1;
    }
    assert(a@ =~= b@);
    true
}

/// The identifier as a seed.
pub fn address_seed(a: &Address) -> (r: Vec<u8>)
    ensures
        r@ == a@,
{
    let mut r: Vec<u8> = Vec::new();
    let mut i: usize = 0;
    while i < 32
        invariant
            i <= 32,
            a@.len() == 32,
            r@ == a@.subrange(0, i as int),
        decreases 32 - i,
    {
        r.push(a[i]);
        i = i + 1;
        assert(r@ =~= a@.subrange(0, i as int));
    }
    assert(a@.subrange(0, 32) =~= a@);
    r
}

/// `metaplex`: the first seed of every address this program derives.
pub open spec fn prefix_spec() -> Seq<u8> {
    seq![109u8, 101, 116, 97, 112, 108, 101, 120]
}

pub fn prefix_seed() -> (r: Vec<u8>)
    ensures
        r@ == prefix_spec(),
{
    let r: Vec<u8> = vec![109u8, 101, 116, 97, 112, 108, 101, 120];
    assert(r@ =~= prefix_spec());
    r
}

/// `metadata`: the first seed of the metadata program's addresses.
pub open spec fn metadata_prefix_spec() -> Seq<u8> {
    seq![109u8, 101, 116, 97, 100, 97, 116, 97]
}

pub fn metadata_prefix_seed() -> (r: Vec<u8>)
    ensures
        r@ == metadata_prefix_spec(),
{
    let r: Vec<u8> = vec![109u8, 101, 116, 97, 100, 97, 116, 97];
    assert(r@ =~= metadata_prefix_spec());
    r
}

/// `edition`: the last seed of an edition address.
pub open spec fn edition_marker_spec() -> Seq<u8> {
    seq![101u8, 100, 105, 116, 105, 111, 110]
}

pub fn edition_marker_seed() -> (r: Vec<u8>)
    ensures
        r@ == edition_marker_spec(),
{
    let r: Vec<u8> = vec![101u8, 100, 105, 116, 105, 111, 110];
    assert(r@ =~= edition_marker_spec());
    r
}

/// `vault`: the first seed of the vault program's addresses.
pub open spec fn vault_prefix_spec() -> Seq<u8> {
    seq![118u8, 97, 117, 108, 116]
}

pub fn vault_prefix_seed() -> (r: Vec<u8>)
    ensures
        r@ == vault_prefix_spec(),
{
    let r: Vec<u8> = vec![118u8, 97, 117, 108, 116];
    assert(r@ =~= vault_prefix_spec());
    r
}

/// The search for a program address, with its failure as `None`.
pub fn find_program_address(seeds: &Vec<Vec<u8>>, program: &Address) -> (r: Option<([u8; 32], u8)>)
    ensures
        found_view(r) == derived_address(seeds_view(seeds@), program@),
{
    try_find_program_address(seeds, program)
}

/// Whether `candidate` is the address derived from `seeds` under `program`,
/// with the bump that the search found.
pub open spec fn derivation_check(seeds: Seq<Seq<u8>>, program: Seq<u8>, candidate: Seq<u8>) -> Option<u8> {
    match derived_address(seeds, program) {
        Some((a, b)) => if a == candidate { Some(b) } else { None },
        None => None,
    }
}

/// Recomputes the address of `seeds` under `program` and compares it with
/// `candidate`; gives the bump where they agree.
pub fn assert_derivation(program: &Address, candidate: &Address, seeds: &Vec<Vec<u8>>) -> (r: Option<u8>)
    ensures
        r == derivation_check(seeds_view(seeds@), program@, candidate@),
{
    match find_program_address(seeds, program) {
        Some((a, b)) => {
            if same_address(&a, candidate) {
                Some(b)
            } else {
                None
            }
        },
        None => None,
    }
}

} // verus!
