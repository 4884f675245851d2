//! What the gateway reads of token accounts and mints, and the transfer that
//! it asks the token program for.

use crate::address::Address;
use vstd::prelude::*;

verus! {

/// A token account, as far as the gateway reads it.
#[derive(Clone, Copy, Debug, PartialEq, Eq)]
pub struct TokenAccount {
    pub address: Address,
    /// The balance, in the smallest denomination of the token.
    pub amount: u64,
}

/// A mint, as far as the gateway reads it.
#[derive(Clone, Copy, Debug, PartialEq, Eq)]
pub struct Mint {
    pub address: Address,
    pub decimals: u8,
}

/// The accounts of a checked transfer.
#[derive(Clone, Copy, Debug, PartialEq, Eq)]
pub struct TransferChecked {
    pub from: Address,
    pub mint: Address,
    pub to: Address,
    /// The owner of `from`, who signs the transfer.
    pub authority: Address,
}

/// A checked transfer, ready to be invoked. The token program refuses it
/// where `decimals` is not the mint's.
#[derive(Clone, Copy, Debug, PartialEq, Eq)]
pub struct TransferCheckedCall {
    /// The program to invoke.
    pub program: Address,
    pub accounts: TransferChecked,
    pub amount: u64,
    pub decimals: u8,
}

} // verus!
