use vstd::prelude::*;
use solana_sdk::transaction::Transaction;
use crate::address::{address_decoding, parse_address, Address};
use crate::error::GatewayError;
use crate::key::{json_byte_array, parse_keypair, sign_transfer, spec_parse_keypair, KeyMaterial, KEYPAIR_BYTES};
use crate::message::{is_signed_transfer, message_view, MessageRecord, MessageView};
use crate::requests::Transfer;

verus! {

#[verifier::external_type_specification]
#[verifier::external_body]
pub struct ExTransaction(Transaction);

/// Smallest currency units in one whole currency unit.
pub const LAMPORTS_PER_SOL: u64 = 1_000_000_000;

/// `sol` whole units expressed in smallest units, when that fits in a `u64`.
pub open spec fn spec_lamports_of_sol(sol: u64) -> Result<u64, GatewayError> {
    if sol * LAMPORTS_PER_SOL <= u64::MAX {
        Ok((sol * LAMPORTS_PER_SOL) as u64)
    } else {
        Err(GatewayError::AmountOverflow)
    }
}

/// Converts whole currency units to smallest units; fails with
/// `AmountOverflow` when the result does not fit.
pub fn lamports_of_sol(sol: u64) -> (r: Result<u64, GatewayError>)
    ensures
        r == spec_lamports_of_sol(sol),
{
    if sol <= u64::MAX / LAMPORTS_PER_SOL {
        assert(sol * LAMPORTS_PER_SOL <= u64::MAX) by (nonlinear_arith)
            requires
                sol <= u64::MAX / LAMPORTS_PER_SOL,
        ;
        Ok(sol * LAMPORTS_PER_SOL)
    } else {
        assert(sol * LAMPORTS_PER_SOL > u64::MAX) by (nonlinear_arith)
            requires
                sol > u64::MAX / LAMPORTS_PER_SOL,
        ;
        Err(GatewayError::AmountOverflow)
    }
}

/// A validated transfer, ready to be bound to a freshness token and signed.
pub struct TransferPlan {
    pub from: Address,
    pub to: Address,
    pub lamports: u64,
    pub key: KeyMaterial,
}

impl TransferPlan {
    /// The key material authorizes the sender.
    pub open spec fn wf(&self) -> bool {
        self.key.spec_address() == self.from@
    }
}

/// The validation outcome of a transfer request, as (sender, recipient,
/// amount in smallest units); checks run in that order, then authorization,
/// then the amount.
pub open spec fn spec_prepare_transfer(
    from_wallet: Seq<char>,
    to_wallet: Seq<char>,
    amount_sol: u64,
    key: Seq<char>,
) -> Result<(Seq<u8>, Seq<u8>, u64), GatewayError> {
    match address_decoding(from_wallet) {
        None => Err(GatewayError::InvalidAddress),
        Some(from) => match address_decoding(to_wallet) {
            None => Err(GatewayError::InvalidAddress),
            Some(to) => match spec_parse_keypair(key) {
                Err(e) => Err(e),
                Ok(signer) => if signer != from {
                    Err(GatewayError::AuthorizationMismatch)
                } else {
                    match spec_lamports_of_sol(amount_sol) {
                        Err(e) => Err(e),
                        Ok(l) => Ok((from, to, l)),
                    }
                },
            },
        },
    }
}

/// Validates a transfer request without touching the network: both
/// addresses, the key material, that the key belongs to the sender, and the
/// amount converted to smallest units.
pub fn prepare_transfer(req: &Transfer) -> (r: Result<TransferPlan, GatewayError>)
    ensures
        match r {
            Ok(p) => p.wf() && spec_prepare_transfer(
                req.from_wallet@,
                req.to_wallet@,
                req.amount_sol,
                req.from_private_key@,
            ) == Ok::<(Seq<u8>, Seq<u8>, u64), GatewayError>((p.from@, p.to@, p.lamports)),
            Err(e) => spec_prepare_transfer(
                req.from_wallet@,
                req.to_wallet@,
                req.amount_sol,
                req.from_private_key@,
            ) == Err::<(Seq<u8>, Seq<u8>, u64), GatewayError>(e),
        },
        r matches Ok(p) ==> json_byte_array(req.from_private_key@) matches Some(b)
            && b.len() == KEYPAIR_BYTES && p.key.spec_address() == b.subrange(32, 64),
{
    let from = match parse_address(req.from_wallet.as_str()) {
        Ok(a) => a,
        Err(e) => return Err(e),
    };
    let to = match parse_address(req.to_wallet.as_str()) {
        Ok(a) => a,
        Err(e) => return Err(e),
    };
    let key = match parse_keypair(req.from_private_key.as_str()) {
        Ok(k) => k,
        Err(e) => return Err(e),
    };
    let signer = key.address();
    if !signer.same_as(&from) {
        return Err(GatewayError::AuthorizationMismatch);
    }
    let lamports = match lamports_of_sol(req.amount_sol) {
        Ok(l) => l,
        Err(e) => return Err(e),
    };
    Ok(TransferPlan { from, to, lamports, key })
}

/// Key material that authorizes another address than the claimed sender
/// is refused with `AuthorizationMismatch` once both addresses and the key
/// are well-formed, and then no plan exists that could be signed.
pub proof fn lemma_foreign_key_refused(
    from_wallet: Seq<char>,
    to_wallet: Seq<char>,
    amount_sol: u64,
    key: Seq<char>,
)
    requires
        address_decoding(from_wallet) is Some,
        address_decoding(to_wallet) is Some,
        spec_parse_keypair(key) is Ok,
        spec_parse_keypair(key)->Ok_0 != address_decoding(from_wallet)->Some_0,
    ensures
        spec_prepare_transfer(from_wallet, to_wallet, amount_sol, key)
            == Err::<(Seq<u8>, Seq<u8>, u64), GatewayError>(GatewayError::AuthorizationMismatch),
{
}

/// A transfer transaction signed by the sender, with its message read back.
pub struct SignedTransfer {
    transaction: Transaction,
    message: MessageRecord,
}

impl View for SignedTransfer {
    type V = MessageView;

    closed spec fn view(&self) -> MessageView {
        message_view(self.message)
    }
}

impl SignedTransfer {
    /// The signed transaction, ready for submission.
    pub fn transaction(&self) -> &Transaction {
        &self.transaction
    }

    /// The freshness token (recent blockhash) the transaction is bound to.
    pub fn freshness(&self) -> (r: [u8; 32])
        ensures
            r@ == self@.blockhash,
    {
        self.message.0
    }
}

/// Binds a validated transfer to the freshness token `freshness` and signs
/// it with the sender's key material: one system transfer of the planned
/// amount from sender to recipient, paid and signed by the sender alone.
pub fn build_transfer(plan: TransferPlan, freshness: [u8; 32]) -> (r: SignedTransfer)
    requires
        plan.wf(),
    ensures
        is_signed_transfer(r@, plan.from@, plan.to@, plan.lamports, freshness@),
{
    let (transaction, message) = sign_transfer(
        &plan.from.bytes,
        &plan.to.bytes,
        plan.lamports,
        &plan.key,
        &freshness,
    );
    SignedTransfer { transaction, message }
}

} // verus!
