//! A buy through the gateway that costs the buyer an extra fee.
//!
//! The operation takes three steps, and the host makes an outside call between
//! them. `handler` describes the swap. Once the market program has answered,
//! `collect_fee` describes the transfer of the fee, computed from the amount
//! that the swap really paid out, and keeps the amounts of the swap. Once the
//! token program has answered, `settle` says what the caller gets. A failure
//! at any step ends the operation; the host's transaction then drops what the
//! earlier steps did.

use crate::address::{bytes_of, Address};
use crate::error::WrapperError;
use crate::market::{PermissionedSwap, PermissionedSwapCall, SwapAmountType, SwapType};
use crate::state::{AuthorityAccount, AuthorityRole};
use crate::token::{Mint, TransferChecked, TransferCheckedCall};
use vstd::prelude::*;

verus! {

/// The rate of the extra fee, in hundredths of a percent.
pub const EXTRA_FEE_BPS: u64 = 200;

/// The number of hundredths of a percent in the whole.
pub const BPS_DENOMINATOR: u64 = 10_000;

/// The accounts of a buy with an extra fee.
#[derive(Clone, Copy, Debug, PartialEq, Eq)]
pub struct WrappedBuyWithExtraFee {
    /// The gateway's own program, under which its identity is derived.
    pub program_id: Address,
    pub config: Address,
    pub market: Address,
    /// The market's entry for the authority that may trade on it.
    pub market_authority: Address,
    pub base_token_mint: Mint,
    pub quote_token_mint: Address,
    pub market_base_token_ata: Address,
    pub market_quote_token_ata: Address,
    /// The authority's account for the base token. The extra fee goes here.
    pub wrapper_authority_base_token_ata: Address,
    pub user_base_token_account: Address,
    pub user_quote_token_account: Address,
    pub protocol_quote_token_ata: Address,
    /// Signs the call into the market program, as the market's authority.
    pub wrapper_authority: AuthorityAccount,
    pub user: Address,
    pub token_mill_program: Address,
    pub base_token_program: Address,
    pub quote_token_program: Address,
    pub event_authority: Address,
}

/// A buy between its swap and its end: the swap went through, the fee on it
/// is still to be transferred.
#[derive(Clone, Copy, Debug, PartialEq, Eq)]
pub struct FeeCollection {
    /// The amounts that went into the swap and came out of it, as the market
    /// program reported them.
    pub swapped: (u64, u64),
    /// The transfer of the fee, for the host to make.
    pub transfer: TransferCheckedCall,
}

impl WrappedBuyWithExtraFee {
    /// The accounts of the forwarded swap. No referral account is named, and
    /// the gateway's authority stands where the market program expects the
    /// signer.
    pub open spec fn swap_accounts(self) -> PermissionedSwap {
        PermissionedSwap {
            config: self.config,
            market: self.market,
            swap_authority_badge: self.market_authority,
            base_token_mint: self.base_token_mint.address,
            quote_token_mint: self.quote_token_mint,
            market_base_token_ata: self.market_base_token_ata,
            market_quote_token_ata: self.market_quote_token_ata,
            user_base_token_account: self.user_base_token_account,
            user_quote_token_account: self.user_quote_token_account,
            protocol_quote_token_ata: self.protocol_quote_token_ata,
            referral_token_account: None,
            swap_authority: self.wrapper_authority.address,
            user: self.user,
            base_token_program: self.base_token_program,
            quote_token_program: self.quote_token_program,
            event_authority: self.event_authority,
            program: self.token_mill_program,
        }
    }

    /// The transfer of a fee of `fee` units of the base token: from the
    /// user's account to the authority's, signed by the user, checked against
    /// the mint's decimals.
    pub open spec fn fee_transfer(self, fee: u64) -> TransferCheckedCall {
        TransferCheckedCall {
            program: self.base_token_program,
            accounts: TransferChecked {
                from: self.user_base_token_account,
                mint: self.base_token_mint.address,
                to: self.wrapper_authority_base_token_ata,
                authority: self.user,
            },
            amount: fee,
            decimals: self.base_token_mint.decimals,
        }
    }
}

/// The extra fee on a swap that paid out `amount_out`: two percent, rounded
/// down.
pub open spec fn extra_fee(amount_out: u64) -> int {
    amount_out * EXTRA_FEE_BPS / (BPS_DENOMINATOR as int)
}

/// Computes the extra fee. The product is taken in 128 bits, so that no
/// amount overflows.
pub fn compute_extra_fee(amount_out: u64) -> (fee: u64)
    ensures
        fee == extra_fee(amount_out),
        fee <= amount_out,
{
    let product: u128 = (amount_out as u128) * (EXTRA_FEE_BPS as u128);
    (product / (BPS_DENOMINATOR as u128)) as u64
}

/// The first step, once the identity that the stored salt derives is known:
/// a buy on the market with the caller's arguments, signed by the authority,
/// or a mismatch where that identity is not the authority's address.
pub open spec fn forwarded_buy(
    ctx: WrappedBuyWithExtraFee,
    identity: Option<Seq<u8>>,
    swap_amount_type: SwapAmountType,
    amount: u64,
    other_amount_threshold: u64,
) -> Result<PermissionedSwapCall, WrapperError> {
    match ctx.wrapper_authority.authorized(AuthorityRole::MarketAuthority, identity) {
        Ok(signer) => Ok(
            PermissionedSwapCall {
                program: ctx.token_mill_program,
                accounts: ctx.swap_accounts(),
                signer,
                swap_type: SwapType::Buy,
                swap_amount_type,
                amount,
                other_amount_threshold,
            },
        ),
        Err(refusal) => Err(refusal),
    }
}

/// The second step: where the swap went through, the transfer of the extra
/// fee on what it paid out, with the amounts of the swap kept beside it;
/// where it failed, its failure.
pub open spec fn fee_collection(ctx: WrappedBuyWithExtraFee, swap_reply: Result<(u64, u64), u64>) -> Result<
    FeeCollection,
    WrapperError,
> {
    match swap_reply {
        Ok(swapped) => Ok(
            FeeCollection { swapped, transfer: ctx.fee_transfer(extra_fee(swapped.1) as u64) },
        ),
        Err(code) => Err(WrapperError::ExternalCallFailure(code)),
    }
}

/// The third step: the amounts of the swap where the fee was transferred, the
/// failure of the transfer where it was not.
pub open spec fn buy_settled(collection: FeeCollection, transfer_reply: Result<(), u64>) -> Result<
    (u64, u64),
    WrapperError,
> {
    match transfer_reply {
        Ok(_) => Ok(collection.swapped),
        Err(code) => Err(WrapperError::ExternalCallFailure(code)),
    }
}

/// Describes the swap for an identity that was derived beforehand.
pub fn forward(
    ctx: &WrappedBuyWithExtraFee,
    identity: Option<Address>,
    swap_amount_type: SwapAmountType,
    amount: u64,
    other_amount_threshold: u64,
) -> (call: Result<PermissionedSwapCall, WrapperError>)
    ensures
        call == forwarded_buy(*ctx, bytes_of(identity), swap_amount_type, amount, other_amount_threshold),
{
    let signer = ctx.wrapper_authority.authorize_with(AuthorityRole::MarketAuthority, identity)?;
    Ok(
        PermissionedSwapCall {
            program: ctx.token_mill_program,
            accounts: PermissionedSwap {
                config: ctx.config,
                market: ctx.market,
                swap_authority_badge: ctx.market_authority,
                base_token_mint: ctx.base_token_mint.address,
                quote_token_mint: ctx.quote_token_mint,
                market_base_token_ata: ctx.market_base_token_ata,
                market_quote_token_ata: ctx.market_quote_token_ata,
                user_base_token_account: ctx.user_base_token_account,
                user_quote_token_account: ctx.user_quote_token_account,
                protocol_quote_token_ata: ctx.protocol_quote_token_ata,
                referral_token_account: None,
                swap_authority: ctx.wrapper_authority.address,
                user: ctx.user,
                base_token_program: ctx.base_token_program,
                quote_token_program: ctx.quote_token_program,
                event_authority: ctx.event_authority,
                program: ctx.token_mill_program,
            },
            signer,
            swap_type: SwapType::Buy,
            swap_amount_type,
            amount,
            other_amount_threshold,
        },
    )
}

/// Starts a buy with an extra fee: rebuilds the authorization proof from the
/// stored salt, checks that it derives the authority's address and describes
/// the swap to forward.
pub fn handler(
    ctx: &WrappedBuyWithExtraFee,
    swap_amount_type: SwapAmountType,
    amount: u64,
    other_amount_threshold: u64,
) -> (call: Result<PermissionedSwapCall, WrapperError>)
    ensures
        call == forwarded_buy(
            *ctx,
            ctx.wrapper_authority.rebuilt_proof(AuthorityRole::MarketAuthority).identity(ctx.program_id@),
            swap_amount_type,
            amount,
            other_amount_threshold,
        ),
{
    let identity = ctx.wrapper_authority.rebuild_proof(AuthorityRole::MarketAuthority).derive(&ctx.program_id);
    forward(ctx, identity, swap_amount_type, amount, other_amount_threshold)
}

/// Continues after the swap. The fee is taken on the amount that the market
/// program reports, whatever the caller asked for, and the transfer is
/// described also where the fee is nothing.
pub fn collect_fee(ctx: &WrappedBuyWithExtraFee, swap_reply: Result<(u64, u64), u64>) -> (collection: Result<
    FeeCollection,
    WrapperError,
>)
    ensures
        collection == fee_collection(*ctx, swap_reply),
{
    match swap_reply {
        Ok(swapped) => Ok(
            FeeCollection {
                swapped,
                transfer: TransferCheckedCall {
                    program: ctx.base_token_program,
                    accounts: TransferChecked {
                        from: ctx.user_base_token_account,
                        mint: ctx.base_token_mint.address,
                        to: ctx.wrapper_authority_base_token_ata,
                        authority: ctx.user,
                    },
                    amount: compute_extra_fee(swapped.1),
                    decimals: ctx.base_token_mint.decimals,
                },
            },
        ),
        Err(code) => Err(WrapperError::ExternalCallFailure(code)),
    }
}

/// Ends the operation after the transfer of the fee: the caller gets the
/// amounts of the swap, or the failure of the transfer.
pub fn settle(collection: &FeeCollection, transfer_reply: Result<(), u64>) -> (outcome: Result<
    (u64, u64),
    WrapperError,
>)
    ensures
        outcome == buy_settled(*collection, transfer_reply),
{
    match transfer_reply {
        Ok(_) => Ok(collection.swapped),
        Err(code) => Err(WrapperError::ExternalCallFailure(code)),
    }
}

/// What a whole buy comes to, where `market` and `token` say what the market
/// program and the token program answer to a call: each step is taken on the
/// answer to the step before, and the first refusal or failure is the end.
pub open spec fn buy_with_fee(
    ctx: WrappedBuyWithExtraFee,
    identity: Option<Seq<u8>>,
    swap_amount_type: SwapAmountType,
    amount: u64,
    other_amount_threshold: u64,
    market: spec_fn(PermissionedSwapCall) -> Result<(u64, u64), u64>,
    token: spec_fn(TransferCheckedCall) -> Result<(), u64>,
) -> Result<(u64, u64), WrapperError> {
    match forwarded_buy(ctx, identity, swap_amount_type, amount, other_amount_threshold) {
        Ok(swap) => match fee_collection(ctx, market(swap)) {
            Ok(collection) => buy_settled(collection, token(collection.transfer)),
            Err(failure) => Err(failure),
        },
        Err(refusal) => Err(refusal),
    }
}

/// A buy goes through exactly where the authority is recognized, the market
/// program makes the swap and the token program makes the transfer of the
/// fee. The caller then gets the amounts that the market program reported,
/// and the fee that was transferred is two percent of the amount that came
/// out, rounded down, whatever amount was asked for.
pub proof fn lemma_buy_with_fee_goes_through(
    ctx: WrappedBuyWithExtraFee,
    identity: Option<Seq<u8>>,
    swap_amount_type: SwapAmountType,
    amount: u64,
    other_amount_threshold: u64,
    market: spec_fn(PermissionedSwapCall) -> Result<(u64, u64), u64>,
    token: spec_fn(TransferCheckedCall) -> Result<(), u64>,
    amounts: (u64, u64),
)
    ensures
        buy_with_fee(ctx, identity, swap_amount_type, amount, other_amount_threshold, market, token) == Ok::<
            (u64, u64),
            WrapperError,
        >(amounts) <==> {
            &&& forwarded_buy(ctx, identity, swap_amount_type, amount, other_amount_threshold) matches Ok(swap)
            &&& identity == Some(ctx.wrapper_authority.address@)
            &&& market(swap) == Ok::<(u64, u64), u64>(amounts)
            &&& token(ctx.fee_transfer(extra_fee(amounts.1) as u64)) is Ok
        },
{
}

} // verus!
