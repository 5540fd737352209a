use vstd::prelude::*;
use anchor_lang::prelude::Pubkey;
use crate::address::Address;

verus! {

/// The address that `Pubkey::create_program_address` computes from the seeds
/// `[tag, key, [bump]]` under `program`, or `None` where it reports an error
/// (the hash falls on the curve, or a seed is too long).
pub uninterp spec fn program_address(tag: Seq<u8>, key: Seq<u8>, bump: u8, program: Seq<u8>) -> Option<Seq<u8>>;

/// The nonce search: the first bump, counting down from `bump` to 1, for which
/// the seeds `[tag, key, [bump]]` give a program address.
pub open spec fn search_bump(tag: Seq<u8>, key: Seq<u8>, program: Seq<u8>, bump: u8) -> Option<(Seq<u8>, u8)>
    decreases bump,
{
    if bump == 0 {
        None
    } else {
        match program_address(tag, key, bump, program) {
            Some(a) => Some((a, bump)),
            None => search_bump(tag, key, program, (bump - 1) as u8),
        }
    }
}

/// The canonical derivation of `(tag, key)` under `program`: address and nonce.
pub open spec fn derive_address(tag: Seq<u8>, key: Seq<u8>, program: Seq<u8>) -> Option<(Seq<u8>, u8)> {
    search_bump(tag, key, program, 255)
}

/// Relies on `Pubkey::create_program_address`: the result depends on the
/// seeds and the program id alone; every error is reported as `None`.
#[verifier::external_body]
pub(crate) fn create_address(tag: &[u8], key: &Address, bump: u8, program: &Address) -> (r: Option<Address>)
    ensures
        match r {
            Some(a) => program_address(tag@, key@, bump, program@) == Some(a@),
            None => program_address(tag@, key@, bump, program@).is_none(),
        },
{
    let seeds: [&[u8]; 3] = [tag, &key.bytes, &[bump]];
    match Pubkey::create_program_address(&seeds, &Pubkey::new_from_array(program.bytes)) {
        Ok(a) => Some(Address { bytes: a.to_bytes() }),
        Err(_) => None,
    }
}

/// Relies on `Pubkey::try_find_program_address`, which tries the bumps from
/// 255 down to 1 with `create_program_address` and returns the first success.
#[verifier::external_body]
pub(crate) fn find_address(tag: &[u8], key: &Address, program: &Address) -> (r: Option<(Address, u8)>)
    ensures
        match r {
            Some((a, b)) => derive_address(tag@, key@, program@) == Some((a@, b)),
            None => derive_address(tag@, key@, program@).is_none(),
        },
{
    let seeds: [&[u8]; 2] = [tag, &key.bytes];
    match Pubkey::try_find_program_address(&seeds, &Pubkey::new_from_array(program.bytes)) {
        Some((a, b)) => Some((Address { bytes: a.to_bytes() }, b)),
        None => None,
    }
}

} // verus!
