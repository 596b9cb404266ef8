use vstd::prelude::*;
use crate::address::Address;

verus! {

/// A balance query for one wallet.
pub struct GetBalance {
    pub wallet: String,
}

/// A funds request: `sol` whole currency units for `wallet`.
pub struct GetAirdrop {
    pub wallet: String,
    pub sol: u64,
}

/// A transfer of `amount_sol` whole currency units from `from_wallet` to
/// `to_wallet`, authorized by `from_private_key` (a JSON array of bytes).
pub struct Transfer {
    pub from_wallet: String,
    pub to_wallet: String,
    pub amount_sol: u64,
    pub from_private_key: String,
}

/// An account metadata query for one wallet.
pub struct GetAccountInfo {
    pub wallet: String,
}

/// A snapshot of an account held by the remote node.
pub struct GetAccountInfoResponse {
    pub wallet: String,
    pub lamports: u64,
    pub data: Vec<u8>,
    pub owner: Address,
    pub executable: bool,
}

} // verus!
