use vstd::prelude::*;
use solana_program::pubkey::Pubkey;
use crate::error::GatewayError;

verus! {

/// Number of bytes in an account address.
pub const ADDRESS_BYTES: usize = 32;

/// A validated account address: exactly the network's address length.
#[derive(Debug, Clone, Copy, PartialEq, Eq)]
pub struct Address {
    pub bytes: [u8; 32],
}

/// The bytes that the textual (base-58) form `s` decodes to as an address,
/// or `None` when `s` is not the text of an address.
pub uninterp spec fn address_decoding(s: Seq<char>) -> Option<Seq<u8>>;

/// The canonical textual (base-58) form of the address bytes `b`.
pub uninterp spec fn address_encoding(b: Seq<u8>) -> Seq<char>;

/// What `parse_address` yields for the text `s`, as the address bytes.
pub open spec fn spec_parse_address(s: Seq<char>) -> Result<Seq<u8>, GatewayError> {
    match address_decoding(s) {
        Some(b) => Ok(b),
        None => Err(GatewayError::InvalidAddress),
    }
}

impl View for Address {
    type V = Seq<u8>;

    open spec fn view(&self) -> Seq<u8> {
        self.bytes@
    }
}

/// A parse result seen through the address's view.
pub open spec fn result_view(r: Result<Address, GatewayError>) -> Result<Seq<u8>, GatewayError> {
    match r {
        Ok(a) => Ok(a@),
        Err(e) => Err(e),
    }
}

/// Relies on `Pubkey::from_str`: decodes base-58 text of at most 44
/// characters into exactly 32 bytes, and fails on anything else.
#[verifier::external_body]
fn decode_pubkey(s: &str) -> (r: Option<[u8; 32]>)
    ensures
        match r {
            Some(b) => address_decoding(s@) == Some(b@),
            None => address_decoding(s@) is None,
        },
{
    match s.parse::<Pubkey>() {
        Ok(p) => Some(p.to_bytes()),
        Err(_) => None,
    }
}

/// Relies on `Pubkey`'s `Display`: the base-58 text of the 32 bytes, which
/// `Pubkey::from_str` decodes back to the same bytes.
#[verifier::external_body]
fn encode_pubkey(b: &[u8; 32]) -> (r: String)
    ensures
        r@ == address_encoding(b@),
        address_decoding(r@) == Some(b@),
{
    Pubkey::new_from_array(*b).to_string()
}

/// Decodes the textual form of an account address; fails with
/// `InvalidAddress` on any text that is not one.
pub fn parse_address(text: &str) -> (r: Result<Address, GatewayError>)
    ensures
        result_view(r) == spec_parse_address(text@),
        r is Err <==> address_decoding(text@) is None,
        r matches Err(e) ==> e == GatewayError::InvalidAddress,
{
    match decode_pubkey(text) {
        Some(b) => Ok(Address { bytes: b }),
        None => Err(GatewayError::InvalidAddress),
    }
}

impl Address {
    /// Whether the two addresses hold the same bytes.
    pub fn same_as(&self, other: &Address) -> (r: bool)
        ensures
            r == (self@ == other@),
    {
        let mut i: usize = 0;
        while i < ADDRESS_BYTES
            invariant
                i <= ADDRESS_BYTES,
                forall|j: int| 0 <= j < i ==> self@[j] == other@[j],
            decreases ADDRESS_BYTES - i,
        {
            if self.bytes[i] != other.bytes[i] {
                return false;
            }
            i = i + 1;
        }
        assert(self@ =~= other@);
        true
    }

    /// The canonical textual form; parsing it gives this address back.
    pub fn to_text(&self) -> (r: String)
        ensures
            r@ == address_encoding(self@),
            spec_parse_address(r@) == Ok::<Seq<u8>, GatewayError>(self@),
    {
        encode_pubkey(&self.bytes)
    }
}

} // verus!
