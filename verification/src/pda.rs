//! Program-derived addresses: account addresses that are a function of a list
//! of seeds and of the program that owns the account.

use vstd::prelude::*;
use crate::address::Address;

verus! {

/// The address derived from `seeds` under `program_id`, with the bump seed that
/// was found for it; `None` where no bump seed gives an address, or where the
/// seeds are more or longer than a derivation admits.
pub uninterp spec fn program_address(seeds: Seq<Seq<u8>>, program_id: Seq<u8>) -> Option<
    (Seq<u8>, u8),
>;

/// The seeds as plain byte sequences.
pub open spec fn seeds_view(seeds: Seq<&[u8]>) -> Seq<Seq<u8>> {
    Seq::new(seeds.len(), |i: int| seeds[i]@)
}

/// What a derivation found, as plain values.
pub open spec fn found_view(found: Option<(Address, u8)>) -> Option<(Seq<u8>, u8)> {
    match found {
        Some((address, bump)) => Some((address@, bump)),
        None => None,
    }
}

/// Calls `Pubkey::try_find_program_address` of `solana_program` (reached through
/// `anchor_lang`), which searches the bump seeds from 255 downwards and returns
/// `None` rather than panic when it finds none.  The contract claims only that
/// the result is a function of the seeds and the program id, and calls that
/// function [`program_address`].
#[verifier::external_body]
pub(crate) fn try_find_program_address(seeds: &[&[u8]], program_id: &Address) -> (found: Option<
    (Address, u8),
>)
    ensures
        found_view(found) == program_address(seeds_view(seeds@), program_id@),
{
    let program = anchor_lang::prelude::Pubkey::new_from_array(program_id.bytes);
    match anchor_lang::prelude::Pubkey::try_find_program_address(seeds, &program) {
        Some((key, bump)) => Some((Address { bytes: key.to_bytes() }, bump)),
        None => None,
    }
}

} // verus!
