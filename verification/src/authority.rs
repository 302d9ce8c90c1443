//! The authority that holds the locked tokens while an escrow is pending.
//!
//! The authority is an address derived from a fixed label and the address of
//! the escrow program. No key pair belongs to it: only the program can act
//! in its name, and any instance of the program finds it again without
//! storing it.

use vstd::prelude::*;
use crate::pubkey::Pubkey;

verus! {

/// The label from which the authority is derived: the ASCII text `escrow`.
pub open spec fn authority_seed() -> Seq<u8> {
    seq![101u8, 115, 99, 114, 111, 119]
}

/// The program-derived address for one seed and a program, with its bump
/// seed, as `Pubkey::try_find_program_address` computes it; `None` if there
/// is none.
pub uninterp spec fn program_address(seed: Seq<u8>, program_id: Seq<u8>) -> Option<(Seq<u8>, u8)>;

/// What a derived authority holds, as mathematical values.
pub open spec fn authority_view(authority: Option<(Pubkey, u8)>) -> Option<(Seq<u8>, u8)> {
    match authority {
        Some((key, bump)) => Some((key@, bump)),
        None => None,
    }
}

/// The authority of the escrow program `program_id`, with its bump seed.
pub open spec fn escrow_authority(program_id: Seq<u8>) -> Option<(Seq<u8>, u8)> {
    program_address(authority_seed(), program_id)
}

/// Calls `Pubkey::try_find_program_address` with the single seed `seed`.
///
/// Trusted: the result depends on the seed and the program address alone.
/// Nothing else is claimed of it.
#[verifier::external_body]
pub(crate) fn try_find_program_address(seed: &[u8], program_id: &Pubkey) -> (r: Option<(Pubkey, u8)>)
    ensures
        authority_view(r) == program_address(seed@, program_id@),
{
    let found = solana_program::pubkey::Pubkey::try_find_program_address(
        &[seed],
        &program_id.bytes.into(),
    );
    found.map(|(key, bump)| (Pubkey { bytes: key.to_bytes() }, bump))
}

/// Derives the authority of the escrow program `program_id`.
pub fn find_escrow_authority(program_id: &Pubkey) -> (r: Option<(Pubkey, u8)>)
    ensures
        authority_view(r) == escrow_authority(program_id@),
{
    let seed: [u8; 6] = [101, 115, 99, 114, 111, 119];
    assert(seed@ =~= authority_seed());
    try_find_program_address(seed.as_slice(), program_id)
}

} // verus!
