use vstd::prelude::*;
use solana_sdk::system_instruction;
use solana_sdk::pubkey::Pubkey;
use solana_sdk::signature::{Keypair, Signer};
use solana_sdk::transaction::Transaction;
use crate::address::Address;
use crate::error::GatewayError;
use crate::message::{is_signed_transfer, message_view, MessageRecord};

verus! {

/// Number of bytes in exported keypair material: secret half, then public half.
pub const KEYPAIR_BYTES: usize = 64;

#[verifier::external_type_specification]
#[verifier::external_body]
pub struct ExKeypair(Keypair);

/// The byte values that the JSON text `s` holds when it is an array of
/// integers in `0..=255`, or `None` otherwise.
pub uninterp spec fn json_byte_array(s: Seq<char>) -> Option<Seq<u8>>;

/// The address that the 64 keypair bytes `b` authorize, or `None` when the
/// public half is not the key derived from the secret half.
pub uninterp spec fn keypair_address(b: Seq<u8>) -> Option<Seq<u8>>;

/// Relies on `serde_json::from_str::<Vec<u8>>`: reads a JSON array of bytes.
#[verifier::external_body]
fn decode_json_bytes(s: &str) -> (r: Option<Vec<u8>>)
    ensures
        match r {
            Some(v) => json_byte_array(s@) == Some(v@),
            None => json_byte_array(s@) is None,
        },
{
    match serde_json::from_str::<Vec<u8>>(s) {
        Ok(v) => Some(v),
        Err(_) => None,
    }
}

/// Relies on `Keypair::from_bytes`, which accepts exactly 64 bytes whose
/// public half is derived from the secret half, and on `Signer::pubkey`,
/// which gives that public half.
#[verifier::external_body]
fn decode_keypair(b: &[u8]) -> (r: Option<(Keypair, [u8; 32])>)
    ensures
        match r {
            Some(p) => keypair_address(b@) == Some(p.1@),
            None => keypair_address(b@) is None,
        },
        r matches Some(p) ==> b@.len() == KEYPAIR_BYTES && p.1@ == b@.subrange(32, 64),
{
    match Keypair::from_bytes(b) {
        Ok(k) => {
            let a = k.pubkey().to_bytes();
            Some((k, a))
        },
        Err(_) => None,
    }
}

/// Signing key material together with the address it authorizes.
pub struct KeyMaterial {
    keypair: Keypair,
    address: Address,
}

/// What `parse_keypair` yields for the text `s`: the authorized address.
pub open spec fn spec_parse_keypair(s: Seq<char>) -> Result<Seq<u8>, GatewayError> {
    match json_byte_array(s) {
        Some(b) => match keypair_address(b) {
            Some(a) => Ok(a),
            None => Err(GatewayError::InvalidKey),
        },
        None => Err(GatewayError::InvalidKey),
    }
}

impl KeyMaterial {
    /// The address this key material authorizes.
    pub closed spec fn spec_address(&self) -> Seq<u8> {
        self.address@
    }

    /// The address this key material authorizes.
    pub fn address(&self) -> (r: Address)
        ensures
            r@ == self.spec_address(),
    {
        self.address
    }
}

/// Relies on `system_instruction::transfer`, the one instruction that moves
/// `lamports` from `from` (signer) to `to`, and on
/// `Transaction::new_signed_with_payer`, which compiles it with `from` as fee
/// payer, binds it to `blockhash` and signs it with the keypair (it panics
/// unless the keypair's address is `from`). The second result is the built
/// message read back field by field.
#[verifier::external_body]
pub(crate) fn sign_transfer(
    from: &[u8; 32],
    to: &[u8; 32],
    lamports: u64,
    key: &KeyMaterial,
    blockhash: &[u8; 32],
) -> (r: (Transaction, MessageRecord))
    requires
        key.spec_address() == from@,
    ensures
        is_signed_transfer(message_view(r.1), from@, to@, lamports, blockhash@),
{
    let p = Pubkey::from(*from);
    let ix = system_instruction::transfer(&p, &Pubkey::from(*to), lamports);
    let t = Transaction::new_signed_with_payer(&[ix], Some(&p), &[&key.keypair], (*blockhash).into());
    let m = &t.message;
    let keys = m.account_keys.iter().map(|k| k.to_bytes()).collect();
    let ixs = m.instructions.iter().map(|c| (c.program_id_index, c.accounts.clone(), c.data.clone())).collect();
    let read = (m.recent_blockhash.to_bytes(), keys, m.header.num_required_signatures, t.signatures.len(), ixs);
    (t, read)
}

/// Decodes key material given as a JSON array of bytes; fails with
/// `InvalidKey` on anything that is not a well-formed keypair.
pub fn parse_keypair(text: &str) -> (r: Result<KeyMaterial, GatewayError>)
    ensures
        match r {
            Ok(k) => spec_parse_keypair(text@) == Ok::<Seq<u8>, GatewayError>(k.spec_address()),
            Err(e) => spec_parse_keypair(text@) == Err::<Seq<u8>, GatewayError>(e),
        },
        r matches Err(e) ==> e == GatewayError::InvalidKey,
        r matches Ok(k) ==> json_byte_array(text@) matches Some(b) && b.len() == KEYPAIR_BYTES
            && k.spec_address() == b.subrange(32, 64),
{
    match decode_json_bytes(text) {
        Some(bytes) => match decode_keypair(bytes.as_slice()) {
            Some(p) => Ok(KeyMaterial { keypair: p.0, address: Address { bytes: p.1 } }),
            None => Err(GatewayError::InvalidKey),
        },
        None => Err(GatewayError::InvalidKey),
    }
}

} // verus!
