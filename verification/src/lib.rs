//! A delegation gateway in front of a market program on a ledger.
//!
//! The gateway owns a keyless signing identity, derived from a fixed label and
//! a stored salt. Each operation checks its own preconditions, rebuilds the
//! authorization proof for that identity and describes the call that the host
//! has to make into the market program. The host makes the call and hands the
//! reply back; what is returned to the caller is decided here.

pub mod address;
pub mod error;
pub mod instructions;
pub mod market;
pub mod state;
pub mod token;

pub use address::Address;
pub use error::WrapperError;

use instructions::graduate::released;
use instructions::initialize_wrapper_authority::initialized;
use instructions::simple_wrapped_swap::forwarded_swap;
use instructions::wrapped_buy_with_extra_fee::forwarded_buy;
use instructions::{Graduate, InitializeWrapperAuthority, SimpleWrappedSwap, WrappedBuyWithExtraFee};
use market::{FreeMarketCall, PermissionedSwapCall, SwapAmountType, SwapType};
use state::AuthorityRole;
use vstd::prelude::*;

verus! {

/// Creates the authority record. Fails with `AlreadyInitialized` where the
/// record exists.
pub fn initialize_wrapper_authority(ctx: &mut InitializeWrapperAuthority) -> (outcome: Result<(), WrapperError>)
    ensures
        (outcome, *final(ctx)) == initialized(*old(ctx), old(ctx).canonical()),
{
    instructions::initialize_wrapper_authority::handler(ctx)
}

/// Describes the swap to forward into the market program, signed by the swap
/// authority.
pub fn simple_wrapped_swap(
    ctx: &SimpleWrappedSwap,
    swap_type: SwapType,
    swap_amount_type: SwapAmountType,
    amount: u64,
    other_amount_threshold: u64,
) -> (call: Result<PermissionedSwapCall, WrapperError>)
    ensures
        call == forwarded_swap(
            *ctx,
            ctx.identity(),
            swap_type,
            swap_amount_type,
            amount,
            other_amount_threshold,
        ),
{
    instructions::simple_wrapped_swap::handler(
        ctx,
        swap_type,
        swap_amount_type,
        amount,
        other_amount_threshold,
    )
}

/// Describes the buy to forward into the market program, signed by the market
/// authority. The extra fee follows once the market program has answered.
pub fn wrapped_buy_with_extra_fee(
    ctx: &WrappedBuyWithExtraFee,
    swap_amount_type: SwapAmountType,
    amount: u64,
    other_amount_threshold: u64,
) -> (call: Result<PermissionedSwapCall, WrapperError>)
    ensures
        call == forwarded_buy(
            *ctx,
            ctx.wrapper_authority.rebuilt_proof(AuthorityRole::MarketAuthority).identity(ctx.program_id@),
            swap_amount_type,
            amount,
            other_amount_threshold,
        ),
{
    instructions::wrapped_buy_with_extra_fee::handler(ctx, swap_amount_type, amount, other_amount_threshold)
}

/// Describes the release of a market to forward into the market program.
/// Fails with `ThresholdNotMet` while the market's balance of the quote asset
/// is below `threshold`.
pub fn graduate(ctx: &Graduate, threshold: u64) -> (call: Result<FreeMarketCall, WrapperError>)
    ensures
        call == released(*ctx, threshold, ctx.identity()),
{
    instructions::graduate::handler(ctx, threshold)
}

} // verus!
