//! Base58 text of addresses, as the Solana SDK reads and writes it.
use vstd::prelude::*;
use crate::types::Address;
use std::str::FromStr;

verus! {

/// The base58 text that the Solana SDK writes for a 32-byte address.
pub uninterp spec fn base58_of_address(bytes: Seq<u8>) -> Seq<char>;

/// The 32 bytes that the Solana SDK reads from a base58 text, if it reads any.
pub uninterp spec fn address_of_base58(text: Seq<char>) -> Option<Seq<u8>>;

/// Relies on `Display` for `solana_sdk::pubkey::Pubkey`: the address's base58 text.
#[verifier::external_body]
pub(crate) fn address_to_base58(address: &Address) -> (r: String)
    ensures
        r@ == base58_of_address(address.bytes@),
{
    solana_sdk::pubkey::Pubkey::new_from_array(address.bytes).to_string()
}

/// Relies on `FromStr` for `solana_sdk::pubkey::Pubkey`: the address a base58
/// text decodes to, or `None` where it is not the text of 32 bytes.
#[verifier::external_body]
pub(crate) fn address_from_base58(text: &str) -> (r: Option<Address>)
    ensures
        match r {
            Some(a) => address_of_base58(text@) == Some(a.bytes@),
            None => address_of_base58(text@).is_none(),
        },
{
    match solana_sdk::pubkey::Pubkey::from_str(text) {
        Ok(key) => Some(Address { bytes: key.to_bytes() }),
        Err(_) => None,
    }
}

} // verus!
