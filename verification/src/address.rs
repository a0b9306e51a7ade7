//! Ethereum addresses.
use crate::hex::{decoded, law_bytes_are_spelled_by_their_text, spelled};
use vstd::prelude::*;
use vstd::utf8::encode_utf8;

verus! {

/// An Ethereum address.
#[derive(Clone, Copy, Debug, PartialEq, Eq)]
pub struct Address(pub [u8; 20]);

impl View for Address {
    type V = Seq<u8>;

    open spec fn view(&self) -> Seq<u8> {
        self.0@
    }
}

/// The address that a text stands for, if it stands for one: twenty bytes in hexadecimal, with or
/// without a prefix. The case of the digits carries no checksum.
pub open spec fn address_of(text: Seq<char>) -> Option<Seq<u8>> {
    match decoded(encode_utf8(text), 20) {
        Ok(bytes) => Some(bytes),
        Err(_) => None,
    }
}

/// `str::parse` to an `Address` of `alloy_primitives`: twenty bytes in hexadecimal, of either
/// case, behind `0x`, `0X` or nothing, and an error for any other text.
#[verifier::external_body]
fn address_bytes(text: &str) -> (bytes: Option<[u8; 20]>)
    ensures
        bytes is Some == address_of(text@) is Some,
        bytes matches Some(array) ==> address_of(text@) == Some(array@),
{
    text.parse::<alloy_primitives::Address>().ok().map(|address| address.into_array())
}

impl Address {
    /// Reads an address.
    pub fn parse(text: &str) -> (address: Option<Address>)
        ensures
            address is Some == address_of(text@) is Some,
            address matches Some(read) ==> address_of(text@) == Some(read@),
    {
        match address_bytes(text) {
            Some(bytes) => Some(Address(bytes)),
            None => None,
        }
    }
}

/// A text stands for the address whose twenty bytes it spells, and for no other.
pub proof fn law_an_address_is_spelled_by_its_text(text: Seq<char>, address: Seq<u8>)
    ensures
        address_of(text) == Some(address) <==> address.len() == 20 && spelled(
            encode_utf8(text),
            address,
        ),
{
    law_bytes_are_spelled_by_their_text(encode_utf8(text), 20, address);
}

/// An address is viewed as its bytes.
pub proof fn law_an_address_is_its_bytes(address: Address)
    ensures
        address@.len() == 20,
        forall|i: int| 0 <= i < 20 ==> #[trigger] address@[i] == address.0@[i],
{
}

} // verus!
