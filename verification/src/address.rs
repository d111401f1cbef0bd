//! Derived addresses.
//!
//! The address of a record is computed from a namespace tag, the identifiers
//! that the caller supplies and the identity of this program. Whoever knows
//! these inputs computes the same address and the same discriminant.

use vstd::prelude::*;
use vstd::slice::slice_to_vec;
use crate::pubkey::Pubkey;

verus! {

/// The identity of this program: the key written `27b22Rj4yVNXM1vEdh65LJ2HsfbmWwBeoncMEFd14bhL`.
pub const PROGRAM_ID: [u8; 32] = [
    0x10, 0x8b, 0xa2, 0xbb, 0xc5, 0x65, 0xb4, 0x75, 0xd3, 0x91, 0xf3, 0x00, 0xf4, 0x5c, 0x60, 0xf1,
    0x20, 0xad, 0x6e, 0x9c, 0x05, 0x65, 0x4f, 0x2c, 0x98, 0xbb, 0xc9, 0x6e, 0x6d, 0xf2, 0xd6, 0xe3,
];

/// The namespace tag of transfer requests: the bytes of `transfer`.
pub const TRANSFER_NAMESPACE: [u8; 8] = [116, 114, 97, 110, 115, 102, 101, 114];

/// The address and discriminant that the host's addressing scheme derives
/// from `seeds` for the program `program_id`, or `None` where it derives none.
pub uninterp spec fn program_address(seeds: Seq<Seq<u8>>, program_id: Seq<u8>) -> Option<
    (Seq<u8>, u8),
>;

/// The bytes of each seed of a list, in order.
pub open spec fn seed_bytes(seeds: Seq<Vec<u8>>) -> Seq<Seq<u8>> {
    Seq::new(seeds.len(), |i: int| seeds[i]@)
}

/// A derived address and its discriminant as plain values.
pub open spec fn found_view(found: Option<(Pubkey, u8)>) -> Option<(Seq<u8>, u8)> {
    match found {
        Some((address, bump)) => Some((address@, bump)),
        None => None,
    }
}

/// The address of a derivation; empty where nothing was derived.
pub open spec fn found_address(derived: Option<(Seq<u8>, u8)>) -> Seq<u8> {
    match derived {
        Some((address, _)) => address,
        None => Seq::empty(),
    }
}

/// The discriminant of a derivation; zero where nothing was derived.
pub open spec fn bump_of(derived: Option<(Seq<u8>, u8)>) -> u8 {
    match derived {
        Some((_, bump)) => bump,
        None => 0,
    }
}

/// Calls `Pubkey::try_find_program_address` of `anchor_lang` (from
/// `solana_program`). Nothing is proved of it. The contract claims only that
/// the outcome is a function of the seeds and of the program's identity, and
/// gives that function the name `program_address`.
#[verifier::external_body]
fn find_program_address(seeds: &Vec<Vec<u8>>, program_id: &Pubkey) -> (found: Option<(Pubkey, u8)>)
    ensures
        found_view(found) == program_address(seed_bytes(seeds@), program_id@),
{
    let parts: Vec<&[u8]> = seeds.iter().map(|seed| seed.as_slice()).collect();
    let owner = anchor_lang::prelude::Pubkey::new_from_array(program_id.bytes);
    match anchor_lang::prelude::Pubkey::try_find_program_address(&parts, &owner) {
        Some((address, bump)) => Some((Pubkey { bytes: address.to_bytes() }, bump)),
        None => None,
    }
}

/// What `derive_address` computes: the namespace tag is the first seed, the caller's
/// identifiers follow in order.
pub open spec fn derived(namespace: Seq<u8>, parts: Seq<Seq<u8>>, program_id: Seq<u8>) -> Option<
    (Seq<u8>, u8),
> {
    program_address(seq![namespace] + parts, program_id)
}

/// The address of the transfer request that `uuid` identifies.
pub open spec fn transfer_address(uuid: Seq<u8>) -> Option<(Seq<u8>, u8)> {
    derived(TRANSFER_NAMESPACE@, seq![uuid], PROGRAM_ID@)
}

/// The identity of this program.
pub fn program_id() -> (id: Pubkey)
    ensures
        id@ == PROGRAM_ID@,
{
    Pubkey::new(PROGRAM_ID)
}

/// Derives the address and discriminant for `namespace` and `parts` under
/// `program_id`.
pub fn derive_address(namespace: &[u8], parts: &Vec<Vec<u8>>, program_id: &Pubkey) -> (found: Option<
    (Pubkey, u8),
>)
    ensures
        found_view(found) == derived(namespace@, seed_bytes(parts@), program_id@),
{
    let mut seeds: Vec<Vec<u8>> = Vec::new();
    seeds.push(slice_to_vec(namespace));
    let mut i: usize = 0;
    while i < parts.len()
        invariant
            i <= parts.len(),
            seeds.len() == i + 1,
            seeds[0]@ == namespace@,
            forall|j: int| 0 <= j < i ==> seeds[j + 1]@ == parts[j]@,
        decreases parts.len() - i,
    {
        seeds.push(slice_to_vec(parts[i].as_slice()));
        i += 1;
    }
    assert(seed_bytes(seeds@) =~= seq![namespace@] + seed_bytes(parts@));
    find_program_address(&seeds, program_id)
}

/// Derives the address of the transfer request that `uuid` identifies.
pub fn derive_transfer_address(uuid: &Pubkey) -> (found: Option<(Pubkey, u8)>)
    ensures
        found_view(found) == transfer_address(uuid@),
{
    let mut parts: Vec<Vec<u8>> = Vec::new();
    parts.push(slice_to_vec(uuid.bytes.as_slice()));
    assert(seed_bytes(parts@) =~= seq![uuid@]);
    let owner = program_id();
    derive_address(TRANSFER_NAMESPACE.as_slice(), &parts, &owner)
}

} // verus!
