//! The calls that the gateway forwards into the market program, as values.
//!
//! A call is described in full before it is made: the program to invoke, the
//! accounts in the places where the market program expects them, the
//! arguments, and the proof that stands in for the gateway's signature. The
//! host turns the description into the invocation and reports what came back.

use crate::address::Address;
use crate::error::WrapperError;
use crate::state::AuthorizationProof;
use vstd::prelude::*;

verus! {

/// The direction of a swap, seen from the base asset.
#[derive(Clone, Copy, Debug, PartialEq, Eq)]
pub enum SwapType {
    Buy,
    Sell,
}

/// Which side of a swap `amount` fixes. The other side is bounded by the
/// slippage limit.
#[derive(Clone, Copy, Debug, PartialEq, Eq)]
pub enum SwapAmountType {
    ExactInput,
    ExactOutput,
}

/// The accounts of a permissioned swap, named as the market program names
/// them.
#[derive(Clone, Copy, Debug, PartialEq, Eq)]
pub struct PermissionedSwap {
    pub config: Address,
    pub market: Address,
    pub swap_authority_badge: Address,
    pub base_token_mint: Address,
    pub quote_token_mint: Address,
    pub market_base_token_ata: Address,
    pub market_quote_token_ata: Address,
    pub user_base_token_account: Address,
    pub user_quote_token_account: Address,
    pub protocol_quote_token_ata: Address,
    pub referral_token_account: Option<Address>,
    pub swap_authority: Address,
    pub user: Address,
    pub base_token_program: Address,
    pub quote_token_program: Address,
    pub event_authority: Address,
    pub program: Address,
}

/// A permissioned swap, ready to be invoked.
#[derive(Clone, Copy, Debug, PartialEq, Eq)]
pub struct PermissionedSwapCall {
    /// The program to invoke.
    pub program: Address,
    pub accounts: PermissionedSwap,
    /// Signs for `accounts.swap_authority`.
    pub signer: AuthorizationProof,
    pub swap_type: SwapType,
    pub swap_amount_type: SwapAmountType,
    pub amount: u64,
    pub other_amount_threshold: u64,
}

/// The accounts of the call that releases a market from its authority.
#[derive(Clone, Copy, Debug, PartialEq, Eq)]
pub struct FreeMarket {
    pub market: Address,
    pub swap_authority_badge: Address,
    pub swap_authority: Address,
    pub event_authority: Address,
    pub program: Address,
}

/// The release of a market, ready to be invoked.
#[derive(Clone, Copy, Debug, PartialEq, Eq)]
pub struct FreeMarketCall {
    /// The program to invoke.
    pub program: Address,
    pub accounts: FreeMarket,
    /// Signs for `accounts.swap_authority`.
    pub signer: AuthorizationProof,
}

/// What a reply of an outside program becomes for the caller: a result is
/// handed on as it is, a failure keeps its code.
pub open spec fn settled<T>(reply: Result<T, u64>) -> Result<T, WrapperError> {
    match reply {
        Ok(value) => Ok(value),
        Err(code) => Err(WrapperError::ExternalCallFailure(code)),
    }
}

/// Hands the reply of an outside program on to the caller.
pub fn settle<T>(reply: Result<T, u64>) -> (outcome: Result<T, WrapperError>)
    ensures
        outcome == settled(reply),
{
    match reply {
        Ok(value) => Ok(value),
        Err(code) => Err(WrapperError::ExternalCallFailure(code)),
    }
}

} // verus!
