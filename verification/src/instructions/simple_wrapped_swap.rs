//! A swap through the gateway, forwarded as it was asked for.
//!
//! `handler` describes the call into the market program; the host makes it,
//! and `settle` hands the reply on to the caller. The gateway keeps nothing
//! between the two, nor from one swap to the next.

use crate::address::{bytes_of, Address};
use crate::error::WrapperError;
use crate::instructions::initialize_wrapper_authority::{
    initialized, lemma_rebuilt_proof_is_the_initial_one, InitializeWrapperAuthority,
};
use crate::market::{settled, PermissionedSwap, PermissionedSwapCall, SwapAmountType, SwapType};
use crate::state::{AuthorityAccount, AuthorityRole};
use vstd::prelude::*;

verus! {

/// The accounts of a forwarded swap.
#[derive(Clone, Copy, Debug, PartialEq, Eq)]
pub struct SimpleWrappedSwap {
    /// The gateway's own program, under which its identity is derived.
    pub program_id: Address,
    pub config: Address,
    pub market: Address,
    pub swap_authority_badge: Address,
    pub base_token_mint: Address,
    pub quote_token_mint: Address,
    pub market_base_token_ata: Address,
    pub market_quote_token_ata: Address,
    pub user_base_token_account: Address,
    pub user_quote_token_account: Address,
    pub protocol_quote_token_ata: Address,
    /// Signs the call into the market program, as the swap authority.
    pub wrapper_authority: AuthorityAccount,
    pub user: Address,
    pub token_mill_program: Address,
    pub base_token_program: Address,
    pub quote_token_program: Address,
    pub event_authority: Address,
}

impl SimpleWrappedSwap {
    /// The accounts of the forwarded swap. No referral account is named, and
    /// the gateway's authority stands where the market program expects the
    /// signer.
    pub open spec fn swap_accounts(self) -> PermissionedSwap {
        PermissionedSwap {
            config: self.config,
            market: self.market,
            swap_authority_badge: self.swap_authority_badge,
            base_token_mint: self.base_token_mint,
            quote_token_mint: self.quote_token_mint,
            market_base_token_ata: self.market_base_token_ata,
            market_quote_token_ata: self.market_quote_token_ata,
            user_base_token_account: self.user_base_token_account,
            user_quote_token_account: self.user_quote_token_account,
            protocol_quote_token_ata: self.protocol_quote_token_ata,
            referral_token_account: None,
            swap_authority: self.wrapper_authority.address,
            user: self.user,
            base_token_program: self.base_token_program,
            quote_token_program: self.quote_token_program,
            event_authority: self.event_authority,
            program: self.token_mill_program,
        }
    }

    /// The identity that the stored salt derives for the gateway.
    pub open spec fn identity(self) -> Option<Seq<u8>> {
        self.wrapper_authority.rebuilt_proof(AuthorityRole::SwapAuthority).identity(self.program_id@)
    }
}

/// The call that a swap is forwarded as, once the identity that the stored
/// salt derives is known: the caller's arguments unchanged, signed by the
/// authority; or a mismatch where that identity is not the authority's
/// address.
pub open spec fn forwarded_swap(
    ctx: SimpleWrappedSwap,
    identity: Option<Seq<u8>>,
    swap_type: SwapType,
    swap_amount_type: SwapAmountType,
    amount: u64,
    other_amount_threshold: u64,
) -> Result<PermissionedSwapCall, WrapperError> {
    match ctx.wrapper_authority.authorized(AuthorityRole::SwapAuthority, identity) {
        Ok(signer) => Ok(
            PermissionedSwapCall {
                program: ctx.token_mill_program,
                accounts: ctx.swap_accounts(),
                signer,
                swap_type,
                swap_amount_type,
                amount,
                other_amount_threshold,
            },
        ),
        Err(refusal) => Err(refusal),
    }
}

/// Describes the swap for an identity that was derived beforehand.
pub fn forward(
    ctx: &SimpleWrappedSwap,
    identity: Option<Address>,
    swap_type: SwapType,
    swap_amount_type: SwapAmountType,
    amount: u64,
    other_amount_threshold: u64,
) -> (call: Result<PermissionedSwapCall, WrapperError>)
    ensures
        call == forwarded_swap(
            *ctx,
            bytes_of(identity),
            swap_type,
            swap_amount_type,
            amount,
            other_amount_threshold,
        ),
{
    let signer = ctx.wrapper_authority.authorize_with(AuthorityRole::SwapAuthority, identity)?;
    Ok(
        PermissionedSwapCall {
            program: ctx.token_mill_program,
            accounts: PermissionedSwap {
                config: ctx.config,
                market: ctx.market,
                swap_authority_badge: ctx.swap_authority_badge,
                base_token_mint: ctx.base_token_mint,
                quote_token_mint: ctx.quote_token_mint,
                market_base_token_ata: ctx.market_base_token_ata,
                market_quote_token_ata: ctx.market_quote_token_ata,
                user_base_token_account: ctx.user_base_token_account,
                user_quote_token_account: ctx.user_quote_token_account,
                protocol_quote_token_ata: ctx.protocol_quote_token_ata,
                referral_token_account: None,
                swap_authority: ctx.wrapper_authority.address,
                user: ctx.user,
                base_token_program: ctx.base_token_program,
                quote_token_program: ctx.quote_token_program,
                event_authority: ctx.event_authority,
                program: ctx.token_mill_program,
            },
            signer,
            swap_type,
            swap_amount_type,
            amount,
            other_amount_threshold,
        },
    )
}

/// Forwards a swap: rebuilds the authorization proof from the stored salt,
/// checks that it derives the authority's address and describes the call
/// into the market program.
pub fn handler(
    ctx: &SimpleWrappedSwap,
    swap_type: SwapType,
    swap_amount_type: SwapAmountType,
    amount: u64,
    other_amount_threshold: u64,
) -> (call: Result<PermissionedSwapCall, WrapperError>)
    ensures
        call == forwarded_swap(
            *ctx,
            ctx.identity(),
            swap_type,
            swap_amount_type,
            amount,
            other_amount_threshold,
        ),
{
    let identity = ctx.wrapper_authority.rebuild_proof(AuthorityRole::SwapAuthority).derive(&ctx.program_id);
    forward(ctx, identity, swap_type, swap_amount_type, amount, other_amount_threshold)
}

/// Hands the market program's reply on: the amounts that went in and came
/// out, as reported, or the failure with its code.
pub fn settle(swap_reply: Result<(u64, u64), u64>) -> (outcome: Result<(u64, u64), WrapperError>)
    ensures
        outcome == settled(swap_reply),
{
    crate::market::settle(swap_reply)
}

/// A swap that is signed by the authority of an initialization, under the
/// program of that initialization, is forwarded: the proof rebuilt from the
/// stored salt is the proof found when the authority was initialized, and it
/// is the signer of the call.
pub proof fn lemma_swap_after_initialization(
    init: InitializeWrapperAuthority,
    ctx: SimpleWrappedSwap,
    swap_type: SwapType,
    swap_amount_type: SwapAmountType,
    amount: u64,
    other_amount_threshold: u64,
)
    requires
        init.role == AuthorityRole::SwapAuthority,
        initialized(init, init.canonical()).0 is Ok,
        ctx.program_id == init.program_id,
        ctx.wrapper_authority.address == init.wrapper_swap_authority.address,
        initialized(init, init.canonical()).1.wrapper_swap_authority.data == Some(ctx.wrapper_authority.data),
    ensures
        forwarded_swap(ctx, ctx.identity(), swap_type, swap_amount_type, amount, other_amount_threshold)
            matches Ok(call) && init.canonical() matches Some((_, salt)) && call.signer.seeds() == seq![
            AuthorityRole::SwapAuthority.label(),
            seq![salt],
        ],
{
    lemma_rebuilt_proof_is_the_initial_one(init);
}

/// A swap that is replayed ends as it ended before. Two requests that agree
/// in every input are forwarded as the same call, and the same reply of the
/// market program is handed on as the same result: the gateway keeps nothing
/// of its own between them.
pub proof fn lemma_replay_gives_same_result(
    first: SimpleWrappedSwap,
    second: SimpleWrappedSwap,
    swap_type: SwapType,
    swap_amount_type: SwapAmountType,
    amount: u64,
    other_amount_threshold: u64,
    first_reply: Result<(u64, u64), u64>,
    second_reply: Result<(u64, u64), u64>,
)
    requires
        first == second,
        first_reply == second_reply,
    ensures
        forwarded_swap(first, first.identity(), swap_type, swap_amount_type, amount, other_amount_threshold)
            == forwarded_swap(
            second,
            second.identity(),
            swap_type,
            swap_amount_type,
            amount,
            other_amount_threshold,
        ),
        settled(first_reply) == settled(second_reply),
{
}

} // verus!
