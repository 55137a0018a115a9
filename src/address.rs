use spl_token::solana_program::pubkey::Pubkey;
use vstd::prelude::*;

verus! {

/// The canonical (base58) text of an address given by its bytes.
pub uninterp spec fn base58_of(bytes: Seq<u8>) -> Seq<char>;

/// Whether the given program identifier is the token program's.
pub uninterp spec fn is_token_program_id(program_id: Seq<u8>) -> bool;

/// Relies on `substreams_solana::Address::to_string`, which base58-encodes the
/// address bytes; the text depends on the bytes alone.
#[verifier::external_body]
pub(crate) fn address_string(bytes: &Vec<u8>) -> (r: String)
    ensures
        r@ == base58_of(bytes@),
{
    substreams_solana::Address(bytes).to_string()
}

/// Relies on `spl_token::check_id`, which compares a key with the token
/// program's fixed identifier; bytes that do not form a 32-byte key are not it.
/// The answer depends on the given bytes alone.
#[verifier::external_body]
pub(crate) fn is_token_program(program_id: &Vec<u8>) -> (r: bool)
    ensures
        r == is_token_program_id(program_id@),
{
    match Pubkey::try_from(program_id.as_slice()) {
        Ok(key) => spl_token::check_id(&key),
        Err(_) => false,
    }
}

} // verus!
