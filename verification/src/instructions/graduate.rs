//! The graduation of a market: its release from the gateway's authority, once
//! and for good, when it has gathered enough of the quote asset.

use crate::address::{bytes_of, Address};
use crate::error::WrapperError;
use crate::market::{settled, FreeMarket, FreeMarketCall};
use crate::state::{AuthorityAccount, AuthorityRole};
use crate::token::TokenAccount;
use vstd::prelude::*;

verus! {

/// The number of smallest denominations in one whole unit of the quote asset.
pub const QUOTE_UNIT: u64 = 1_000_000_000;

/// The balance from which a market may graduate unless the deployment sets
/// another: 69,000 whole units of the quote asset.
pub const GRADUATION_THRESHOLD: u64 = 69_000 * QUOTE_UNIT;

/// The accounts of a graduation.
#[derive(Clone, Copy, Debug, PartialEq, Eq)]
pub struct Graduate {
    /// The gateway's own program, under which its identity is derived.
    pub program_id: Address,
    pub market: Address,
    pub swap_authority_badge: Address,
    pub quote_token_mint: Address,
    /// The market's account for the quote asset. Its balance is what the
    /// market has gathered.
    pub market_quote_token_ata: TokenAccount,
    /// Signs the call into the market program, as the swap authority.
    pub wrapper_swap_authority: AuthorityAccount,
    pub signer: Address,
    pub token_mill_program: Address,
    pub quote_token_program: Address,
    pub event_authority: Address,
}

impl Graduate {
    /// The accounts of the forwarded release.
    pub open spec fn release_accounts(self) -> FreeMarket {
        FreeMarket {
            market: self.market,
            swap_authority_badge: self.swap_authority_badge,
            swap_authority: self.wrapper_swap_authority.address,
            event_authority: self.event_authority,
            program: self.token_mill_program,
        }
    }

    /// The identity that the stored salt derives for the gateway.
    pub open spec fn identity(self) -> Option<Seq<u8>> {
        self.wrapper_swap_authority.rebuilt_proof(AuthorityRole::SwapAuthority).identity(self.program_id@)
    }
}

/// What a request to graduate comes to, once the identity that the stored
/// salt derives is known. The balance is looked at first: below `threshold`
/// the request is refused whatever else holds. From `threshold` on, the
/// release is forwarded, signed by the authority, unless the identity is not
/// the authority's address.
pub open spec fn released(ctx: Graduate, threshold: u64, identity: Option<Seq<u8>>) -> Result<
    FreeMarketCall,
    WrapperError,
> {
    if ctx.market_quote_token_ata.amount < threshold {
        Err(WrapperError::ThresholdNotMet)
    } else {
        match ctx.wrapper_swap_authority.authorized(AuthorityRole::SwapAuthority, identity) {
            Ok(signer) => Ok(
                FreeMarketCall { program: ctx.token_mill_program, accounts: ctx.release_accounts(), signer },
            ),
            Err(refusal) => Err(refusal),
        }
    }
}

/// Decides on a graduation for an identity that was derived beforehand.
pub fn release(ctx: &Graduate, threshold: u64, identity: Option<Address>) -> (call: Result<
    FreeMarketCall,
    WrapperError,
>)
    ensures
        call == released(*ctx, threshold, bytes_of(identity)),
        call == Err::<FreeMarketCall, WrapperError>(WrapperError::ThresholdNotMet)
            <==> ctx.market_quote_token_ata.amount < threshold,
{
    if ctx.market_quote_token_ata.amount < threshold {
        return Err(WrapperError::ThresholdNotMet);
    }
    let signer = ctx.wrapper_swap_authority.authorize_with(AuthorityRole::SwapAuthority, identity)?;
    Ok(
        FreeMarketCall {
            program: ctx.token_mill_program,
            accounts: FreeMarket {
                market: ctx.market,
                swap_authority_badge: ctx.swap_authority_badge,
                swap_authority: ctx.wrapper_swap_authority.address,
                event_authority: ctx.event_authority,
                program: ctx.token_mill_program,
            },
            signer,
        },
    )
}

/// Graduates a market: refuses while the market's balance of the quote asset
/// is below `threshold`; from `threshold` on, rebuilds the authorization
/// proof from the stored salt, checks that it derives the authority's address
/// and describes the release to forward.
pub fn handler(ctx: &Graduate, threshold: u64) -> (call: Result<FreeMarketCall, WrapperError>)
    ensures
        call == released(*ctx, threshold, ctx.identity()),
        call == Err::<FreeMarketCall, WrapperError>(WrapperError::ThresholdNotMet)
            <==> ctx.market_quote_token_ata.amount < threshold,
{
    if ctx.market_quote_token_ata.amount < threshold {
        return Err(WrapperError::ThresholdNotMet);
    }
    let identity = ctx.wrapper_swap_authority.rebuild_proof(AuthorityRole::SwapAuthority).derive(&ctx.program_id);
    release(ctx, threshold, identity)
}

/// Hands the market program's reply on: nothing where the market was
/// released, the failure with its code where it was not.
pub fn settle(release_reply: Result<(), u64>) -> (outcome: Result<(), WrapperError>)
    ensures
        outcome == settled(release_reply),
{
    crate::market::settle(release_reply)
}

} // verus!
