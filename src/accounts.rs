use crate::address::Address;
use vstd::prelude::*;

verus! {

/// What a call reads of one account, as of the start of the call.
#[derive(Debug, Clone)]
pub struct AccountSnapshot {
    pub key: Address,
    /// The program that owns the account.
    pub owner: Address,
    /// The native balance.
    pub lamports: u64,
    pub is_signer: bool,
    pub data: Vec<u8>,
}

} // verus!
