use crate::address::{create_program_address, program_address_of, Address};
use crate::bytes::{le_bytes_u32, u32_to_le};
use vstd::prelude::*;

verus! {

/// The domain tag that opens every forward account's seeds: "forward".
pub open spec fn forward_tag() -> Seq<u8> {
    seq![102u8, 111, 114, 119, 97, 114, 100]
}

/// The seeds of the forward account for `destination` and `id`, closed by `bump`.
pub open spec fn forward_seeds(destination: Seq<u8>, id: u32, bump: u8) -> Seq<Seq<u8>> {
    seq![forward_tag(), destination, le_bytes_u32(id), seq![bump]]
}

/// The address of the forward account for `destination`, `id` and `bump`
/// under `program_id`, if those seeds give one.
pub open spec fn forward_address(program_id: Seq<u8>, destination: Seq<u8>, id: u32, bump: u8) -> Option<
    Seq<u8>,
> {
    program_address_of(forward_seeds(destination, id, bump), program_id)
}

/// The seeds that reproduce the forward account's address; the same tuple
/// signs the account's outgoing transfers.
pub fn forward_signer_seeds(destination: &Address, id: u32, bump: u8) -> (r: Vec<Vec<u8>>)
    ensures
        r.deep_view() == forward_seeds(destination@, id, bump),
{
    let tag: Vec<u8> = vec![102u8, 111, 114, 119, 97, 114, 100];
    let dest = destination.to_vec();
    let id_bytes = u32_to_le(id);
    let bump_bytes: Vec<u8> = vec![bump];
    let r: Vec<Vec<u8>> = vec![tag, dest, id_bytes, bump_bytes];
    assert(r@[0].deep_view() =~= forward_tag());
    assert(r@[1].deep_view() =~= destination@);
    assert(r@[2].deep_view() =~= le_bytes_u32(id));
    assert(r@[3].deep_view() =~= seq![bump]);
    assert(r.deep_view() =~= forward_seeds(destination@, id, bump));
    r
}

/// The address of the forward account for `destination`, `id` and `bump`.
pub fn derive_forward_address(program_id: &Address, destination: &Address, id: u32, bump: u8) -> (r:
    Option<Address>)
    ensures
        match r {
            Some(a) => forward_address(program_id@, destination@, id, bump) == Some(a@),
            None => forward_address(program_id@, destination@, id, bump) is None,
        },
{
    let seeds = forward_signer_seeds(destination, id, bump);
    create_program_address(&seeds, program_id)
}

/// Whether `candidate` is the forward account's address for these inputs.
pub fn validate_forward_address(
    program_id: &Address,
    destination: &Address,
    id: u32,
    bump: u8,
    candidate: &Address,
) -> (r: bool)
    ensures
        r == (forward_address(program_id@, destination@, id, bump) == Some(candidate@)),
{
    match derive_forward_address(program_id, destination, id, bump) {
        Some(a) => a.same(candidate),
        None => false,
    }
}

/// Derivation is a function of its inputs: equal inputs give equal addresses.
pub proof fn lemma_derivation_deterministic(
    program_a: Seq<u8>,
    destination_a: Seq<u8>,
    id_a: u32,
    bump_a: u8,
    program_b: Seq<u8>,
    destination_b: Seq<u8>,
    id_b: u32,
    bump_b: u8,
)
    requires
        program_a == program_b,
        destination_a == destination_b,
        id_a == id_b,
        bump_a == bump_b,
    ensures
        forward_address(program_a, destination_a, id_a, bump_a) == forward_address(
            program_b,
            destination_b,
            id_b,
            bump_b,
        ),
{
}

/// Distinct inputs give distinct seeds: a change to the destination, the id
/// or the bump always reaches the hashed seed tuple.
pub proof fn lemma_forward_seeds_injective(
    destination_a: Seq<u8>,
    id_a: u32,
    bump_a: u8,
    destination_b: Seq<u8>,
    id_b: u32,
    bump_b: u8,
)
    requires
        forward_seeds(destination_a, id_a, bump_a) == forward_seeds(destination_b, id_b, bump_b),
    ensures
        destination_a == destination_b,
        id_a == id_b,
        bump_a == bump_b,
{
    let sa = forward_seeds(destination_a, id_a, bump_a);
    let sb = forward_seeds(destination_b, id_b, bump_b);
    assert(sa[1] == sb[1]);
    assert(sa[2] == sb[2]);
    assert(sa[3] == sb[3]);
    assert(sa[3][0] == bump_a);
    assert(sb[3][0] == bump_b);
    crate::bytes::lemma_u32_le_round_trip(id_a);
    crate::bytes::lemma_u32_le_round_trip(id_b);
}

} // verus!
