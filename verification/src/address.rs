//! Where an invoice lives: the address derived from its creator's key.
//!
//! The host addresses a record by hashing a list of seeds together with the
//! program's identifier and adjusting a bump byte until the result is a valid
//! program address. An invoice's seeds are the label `"invoice"`, the
//! creator's key, and the first eight bytes of that key, so a creator has one
//! invoice address and anyone who knows the key can recompute it.

use vstd::prelude::*;
use crate::key::{Key, PROGRAM_ID};

verus! {

/// The label that opens every invoice's seed list: the bytes of `"invoice"`.
pub const INVOICE_SEED: [u8; 7] = [105, 110, 118, 111, 105, 99, 101];

/// How many leading bytes of the creator's key close the seed list.
pub const KEY_PREFIX_LEN: usize = 8;

/// What the host's derivation scheme yields for a seed list and a program
/// identifier: the address with its bump byte, or `None` where no bump byte
/// gives a valid address.
pub uninterp spec fn program_address(seeds: Seq<Seq<u8>>, program_id: Seq<u8>) -> Option<(Seq<u8>, u8)>;

/// The seed list of the invoice that belongs to `creator`.
pub open spec fn invoice_seeds(creator: Seq<u8>) -> Seq<Seq<u8>> {
    seq![INVOICE_SEED@, creator, creator.subrange(0, KEY_PREFIX_LEN as int)]
}

/// The address, with its bump byte, of the invoice that belongs to `creator`.
pub open spec fn derived_address(creator: Seq<u8>) -> Option<(Seq<u8>, u8)> {
    program_address(invoice_seeds(creator), PROGRAM_ID@)
}

/// A derivation result as the mathematical value it stands for.
pub open spec fn derivation_view(found: Option<(Key, u8)>) -> Option<(Seq<u8>, u8)> {
    match found {
        Some((address, bump)) => Some((address@, bump)),
        None => None,
    }
}

/// Runs `Pubkey::try_find_program_address` of `anchor_lang` on the seeds and
/// the program identifier. Trusted: that the outcome is the one
/// `program_address` names for these arguments, which claims no more than
/// that the derivation depends on its arguments alone.
#[verifier::external_body]
fn find_program_address(seeds: &Vec<Vec<u8>>, program_id: &Key) -> (found: Option<(Key, u8)>)
    ensures
        derivation_view(found) == program_address(seeds.deep_view(), program_id@),
{
    let parts: Vec<&[u8]> = seeds.iter().map(|seed| seed.as_slice()).collect();
    let id = anchor_lang::prelude::Pubkey::new_from_array(*program_id);
    anchor_lang::prelude::Pubkey::try_find_program_address(&parts, &id)
        .map(|(address, bump)| (address.to_bytes(), bump))
}

/// Copies `bytes[..len]` into a fresh vector.
fn prefix_to_vec(bytes: &[u8], len: usize) -> (copy: Vec<u8>)
    requires
        len <= bytes@.len(),
    ensures
        copy@ == bytes@.subrange(0, len as int),
{
    let mut copy: Vec<u8> = Vec::new();
    let mut i: usize = 0;
    while i < len
        invariant
            i <= len <= bytes@.len(),
            copy@ == bytes@.subrange(0, i as int),
        decreases len - i,
    {
        copy.push(bytes[i]);
        i += 1;
        assert(copy@ =~= bytes@.subrange(0, i as int));
    }
    copy
}

/// Derives the address of the invoice that belongs to `creator`, with its
/// bump byte. The result is a function of the creator's key alone.
pub fn invoice_address(creator: &Key) -> (found: Option<(Key, u8)>)
    ensures
        derivation_view(found) == derived_address(creator@),
{
    let mut seeds: Vec<Vec<u8>> = Vec::new();
    seeds.push(prefix_to_vec(INVOICE_SEED.as_slice(), 7));
    seeds.push(prefix_to_vec(creator.as_slice(), 32));
    seeds.push(prefix_to_vec(creator.as_slice(), KEY_PREFIX_LEN));
    proof {
        assert(INVOICE_SEED@.subrange(0, 7) =~= INVOICE_SEED@);
        assert(creator@.subrange(0, 32) =~= creator@);
        assert(seeds.deep_view() =~~= invoice_seeds(creator@));
    }
    find_program_address(&seeds, &PROGRAM_ID)
}

/// The derived address depends on nothing but the creator's key: equal keys
/// have equal invoice addresses.
pub proof fn lemma_address_determined_by_creator(a: Key, b: Key)
    requires
        a@ == b@,
    ensures
        derived_address(a@) == derived_address(b@),
{
}

} // verus!
