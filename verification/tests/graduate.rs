use std::str::FromStr;

use anchor_lang::prelude::Pubkey;
use token_mill_wrapper::instructions::graduate::{
    handler, release, settle, Graduate, GRADUATION_THRESHOLD, QUOTE_UNIT,
};
use token_mill_wrapper::market::{FreeMarket, FreeMarketCall};
use token_mill_wrapper::state::{AuthorityAccount, AuthorityRole, AuthorizationProof, WrapperSwapAuthority};
use token_mill_wrapper::token::TokenAccount;
use token_mill_wrapper::{graduate, Address, WrapperError};

fn program() -> Pubkey {
    Pubkey::from_str("GyXseHdafYkKMCQmS6dJN1KNWe3Zok9pSGm7wjiYK9ob").unwrap()
}

fn named(tag: u8) -> Address {
    Address::new([tag; 32])
}

fn market_with(balance: u64) -> Graduate {
    let (key, bump) = Pubkey::find_program_address(&[b"wrapper_swap_authority"], &program());
    Graduate {
        program_id: Address::new(program().to_bytes()),
        market: named(2),
        swap_authority_badge: named(3),
        quote_token_mint: named(5),
        market_quote_token_ata: TokenAccount { address: named(7), amount: balance },
        wrapper_swap_authority: AuthorityAccount {
            address: Address::new(key.to_bytes()),
            data: WrapperSwapAuthority { bump },
        },
        signer: named(11),
        token_mill_program: named(12),
        quote_token_program: named(14),
        event_authority: named(15),
    }
}

fn expected_call(ctx: &Graduate) -> FreeMarketCall {
    FreeMarketCall {
        program: named(12),
        accounts: FreeMarket {
            market: named(2),
            swap_authority_badge: named(3),
            swap_authority: ctx.wrapper_swap_authority.address,
            event_authority: named(15),
            program: named(12),
        },
        signer: AuthorizationProof {
            role: AuthorityRole::SwapAuthority,
            salt: ctx.wrapper_swap_authority.data.bump,
        },
    }
}

#[test]
fn default_threshold_is_69_000_whole_units() {
    assert_eq!(QUOTE_UNIT, 1_000_000_000);
    assert_eq!(GRADUATION_THRESHOLD, 69_000_000_000_000);
}

#[test]
fn graduate_one_below_threshold_is_refused() {
    let ctx = market_with(GRADUATION_THRESHOLD - 1);
    let before = ctx;
    assert_eq!(handler(&ctx, GRADUATION_THRESHOLD), Err(WrapperError::ThresholdNotMet));
    assert_eq!(graduate(&ctx, GRADUATION_THRESHOLD), Err(WrapperError::ThresholdNotMet));
    // Nothing was forwarded and nothing changed.
    assert_eq!(ctx, before);
}

#[test]
fn graduate_at_exactly_the_threshold_is_forwarded() {
    let ctx = market_with(GRADUATION_THRESHOLD);
    assert_eq!(handler(&ctx, GRADUATION_THRESHOLD), Ok(expected_call(&ctx)));
    assert_eq!(graduate(&ctx, GRADUATION_THRESHOLD), Ok(expected_call(&ctx)));
}

#[test]
fn graduate_above_the_threshold_is_forwarded() {
    for balance in [GRADUATION_THRESHOLD + 1, 2 * GRADUATION_THRESHOLD, u64::MAX] {
        let ctx = market_with(balance);
        assert_eq!(handler(&ctx, GRADUATION_THRESHOLD), Ok(expected_call(&ctx)));
    }
}

#[test]
fn graduate_below_the_threshold_is_refused() {
    for balance in [0, 1, GRADUATION_THRESHOLD / 2, GRADUATION_THRESHOLD - 2] {
        let ctx = market_with(balance);
        assert_eq!(handler(&ctx, GRADUATION_THRESHOLD), Err(WrapperError::ThresholdNotMet));
    }
}

#[test]
fn graduate_threshold_can_be_set_by_the_deployment() {
    let ctx = market_with(500);
    assert_eq!(handler(&ctx, 500), Ok(expected_call(&ctx)));
    assert_eq!(handler(&ctx, 501), Err(WrapperError::ThresholdNotMet));
    assert_eq!(handler(&ctx, 0), Ok(expected_call(&ctx)));
    assert_eq!(handler(&ctx, u64::MAX), Err(WrapperError::ThresholdNotMet));
    let empty = market_with(0);
    assert_eq!(handler(&empty, 0), Ok(expected_call(&empty)));
    let full = market_with(u64::MAX);
    assert_eq!(handler(&full, u64::MAX), Ok(expected_call(&full)));
}

#[test]
fn graduate_looks_at_the_balance_before_the_authority() {
    let mut ctx = market_with(GRADUATION_THRESHOLD - 1);
    ctx.wrapper_swap_authority.address = named(99);
    assert_eq!(handler(&ctx, GRADUATION_THRESHOLD), Err(WrapperError::ThresholdNotMet));
    ctx.market_quote_token_ata.amount = GRADUATION_THRESHOLD;
    assert_eq!(handler(&ctx, GRADUATION_THRESHOLD), Err(WrapperError::AuthorizationMismatch));
}

#[test]
fn graduate_with_a_wrong_salt_is_a_mismatch() {
    let mut ctx = market_with(GRADUATION_THRESHOLD);
    ctx.wrapper_swap_authority.data.bump = ctx.wrapper_swap_authority.data.bump.wrapping_sub(1);
    assert_eq!(graduate(&ctx, GRADUATION_THRESHOLD), Err(WrapperError::AuthorizationMismatch));
}

#[test]
fn release_decides_on_the_identity_given() {
    let mut ctx = market_with(10);
    ctx.wrapper_swap_authority = AuthorityAccount { address: named(50), data: WrapperSwapAuthority { bump: 3 } };
    assert_eq!(release(&ctx, 10, Some(named(50))), Ok(expected_call(&ctx)));
    assert_eq!(release(&ctx, 10, Some(named(51))), Err(WrapperError::AuthorizationMismatch));
    assert_eq!(release(&ctx, 10, None), Err(WrapperError::AuthorizationMismatch));
    assert_eq!(release(&ctx, 11, Some(named(50))), Err(WrapperError::ThresholdNotMet));
    assert_eq!(release(&ctx, 11, None), Err(WrapperError::ThresholdNotMet));
}

#[test]
fn release_reply_is_handed_on() {
    assert_eq!(settle(Ok(())), Ok(()));
    assert_eq!(settle(Err(6010)), Err(WrapperError::ExternalCallFailure(6010)));
}
