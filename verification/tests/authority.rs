use std::str::FromStr;

use anchor_lang::prelude::Pubkey;
use token_mill_wrapper::instructions::initialize_wrapper_authority::{bind, handler, InitializeWrapperAuthority};
use token_mill_wrapper::state::{
    AuthorityAccount, AuthorityRole, AuthoritySlot, AuthorizationProof, WrapperSwapAuthority,
};
use token_mill_wrapper::{initialize_wrapper_authority, Address, WrapperError};

const SWAP_LABEL: &[u8] = b"wrapper_swap_authority";
const MARKET_LABEL: &[u8] = b"wrapper_authority";

fn program() -> Pubkey {
    Pubkey::from_str("GyXseHdafYkKMCQmS6dJN1KNWe3Zok9pSGm7wjiYK9ob").unwrap()
}

fn address(key: &Pubkey) -> Address {
    Address::new(key.to_bytes())
}

fn fresh(role: AuthorityRole, label: &[u8]) -> (InitializeWrapperAuthority, u8) {
    let (key, bump) = Pubkey::find_program_address(&[label], &program());
    let ctx = InitializeWrapperAuthority {
        program_id: address(&program()),
        role,
        wrapper_swap_authority: AuthoritySlot { address: address(&key), data: None },
    };
    (ctx, bump)
}

#[test]
fn address_keeps_its_bytes() {
    let mut bytes = [0u8; 32];
    for (i, byte) in bytes.iter_mut().enumerate() {
        *byte = i as u8;
    }
    let a = Address::new(bytes);
    assert_eq!(a.bytes, bytes);
    assert_eq!(a.to_bytes(), bytes);
}

#[test]
fn same_as_compares_all_bytes() {
    let a = Address::new([7u8; 32]);
    let b = Address::new([7u8; 32]);
    assert!(a.same_as(&b));
    assert!(a.same_as(&a));
    for i in 0..32 {
        let mut bytes = [7u8; 32];
        bytes[i] = 8;
        let c = Address::new(bytes);
        assert!(!a.same_as(&c), "a difference in byte {} went unnoticed", i);
        assert!(!c.same_as(&a));
    }
}

#[test]
fn labels_are_the_fixed_texts() {
    assert_eq!(AuthorityRole::SwapAuthority.seed(), SWAP_LABEL);
    assert_eq!(AuthorityRole::MarketAuthority.seed(), MARKET_LABEL);
    assert_eq!(AuthorityRole::SwapAuthority.seed().len(), 22);
    assert_eq!(AuthorityRole::MarketAuthority.seed().len(), 17);
}

#[test]
fn record_initialize_stores_the_bump() {
    let mut record = WrapperSwapAuthority { bump: 0 };
    record.initialize(254);
    assert_eq!(record, WrapperSwapAuthority { bump: 254 });
    record.initialize(0);
    assert_eq!(record.bump, 0);
    record.initialize(255);
    assert_eq!(record.bump, 255);
}

#[test]
fn signer_seeds_are_label_then_salt() {
    let swap = AuthorizationProof { role: AuthorityRole::SwapAuthority, salt: 253 };
    assert_eq!(swap.signer_seeds(), vec![SWAP_LABEL.to_vec(), vec![253u8]]);
    let market = AuthorizationProof { role: AuthorityRole::MarketAuthority, salt: 0 };
    assert_eq!(market.signer_seeds(), vec![MARKET_LABEL.to_vec(), vec![0u8]]);
}

#[test]
fn derive_agrees_with_the_ledger() {
    let program_id = address(&program());
    let mut derived_some = 0;
    let mut derived_none = 0;
    for salt in 0..=255u8 {
        let expected = Pubkey::create_program_address(&[SWAP_LABEL, &[salt]], &program()).ok();
        let proof = AuthorizationProof { role: AuthorityRole::SwapAuthority, salt };
        let got = proof.derive(&program_id);
        assert_eq!(got.map(|a| a.to_bytes()), expected.map(|k| k.to_bytes()));
        match got {
            Some(identity) => {
                derived_some += 1;
                assert_ne!(identity, program_id);
                assert!(!Pubkey::new_from_array(identity.to_bytes()).is_on_curve());
            }
            None => derived_none += 1,
        }
    }
    // About half of all hashes are points of the curve.
    assert!(derived_some > 0);
    assert!(derived_none > 0);
}

#[test]
fn derive_depends_on_role_salt_and_program() {
    let (ctx, bump) = fresh(AuthorityRole::SwapAuthority, SWAP_LABEL);
    let identity = AuthorizationProof { role: AuthorityRole::SwapAuthority, salt: bump }.derive(&ctx.program_id);
    assert_eq!(identity, Some(ctx.wrapper_swap_authority.address));

    let other_role = AuthorizationProof { role: AuthorityRole::MarketAuthority, salt: bump }.derive(&ctx.program_id);
    assert_ne!(other_role, identity);

    let other_program = Address::new([9u8; 32]);
    let elsewhere = AuthorizationProof { role: AuthorityRole::SwapAuthority, salt: bump }.derive(&other_program);
    assert_ne!(elsewhere, identity);

    for salt in 0..=255u8 {
        if salt != bump {
            let other = AuthorizationProof { role: AuthorityRole::SwapAuthority, salt }.derive(&ctx.program_id);
            assert_ne!(other, identity);
        }
    }
}

#[test]
fn initialize_stores_the_canonical_salt() {
    let (mut ctx, bump) = fresh(AuthorityRole::SwapAuthority, SWAP_LABEL);
    let before = ctx;
    assert_eq!(handler(&mut ctx), Ok(()));
    assert_eq!(ctx.wrapper_swap_authority.data, Some(WrapperSwapAuthority { bump }));
    assert_eq!(ctx.wrapper_swap_authority.address, before.wrapper_swap_authority.address);
    assert_eq!(ctx.program_id, before.program_id);
    assert_eq!(ctx.role, before.role);
    assert!(bump >= 1);
}

#[test]
fn initialize_takes_the_highest_salt_that_derives() {
    let (mut ctx, _) = fresh(AuthorityRole::MarketAuthority, MARKET_LABEL);
    assert_eq!(initialize_wrapper_authority(&mut ctx), Ok(()));
    let stored = ctx.wrapper_swap_authority.data.unwrap().bump;
    for salt in (stored as u16 + 1)..=255 {
        let proof = AuthorizationProof { role: AuthorityRole::MarketAuthority, salt: salt as u8 };
        assert_eq!(proof.derive(&ctx.program_id), None);
    }
    let proof = AuthorizationProof { role: AuthorityRole::MarketAuthority, salt: stored };
    assert_eq!(proof.derive(&ctx.program_id), Some(ctx.wrapper_swap_authority.address));
}

#[test]
fn initialize_twice_fails_and_keeps_the_salt() {
    let (mut ctx, bump) = fresh(AuthorityRole::SwapAuthority, SWAP_LABEL);
    assert_eq!(handler(&mut ctx), Ok(()));
    let after_first = ctx;
    assert_eq!(handler(&mut ctx), Err(WrapperError::AlreadyInitialized));
    assert_eq!(ctx, after_first);
    assert_eq!(initialize_wrapper_authority(&mut ctx), Err(WrapperError::AlreadyInitialized));
    assert_eq!(ctx, after_first);
    assert_eq!(ctx.wrapper_swap_authority.data, Some(WrapperSwapAuthority { bump }));
}

#[test]
fn initialize_refuses_an_existing_record_whatever_it_holds() {
    for stored in [0u8, 1, 127, 255] {
        let (mut ctx, _) = fresh(AuthorityRole::SwapAuthority, SWAP_LABEL);
        ctx.wrapper_swap_authority.data = Some(WrapperSwapAuthority { bump: stored });
        let before = ctx;
        assert_eq!(handler(&mut ctx), Err(WrapperError::AlreadyInitialized));
        assert_eq!(ctx, before);
        // Also where the slot is not at the derived address.
        ctx.wrapper_swap_authority.address = Address::new([1u8; 32]);
        let before = ctx;
        assert_eq!(handler(&mut ctx), Err(WrapperError::AlreadyInitialized));
        assert_eq!(ctx, before);
    }
}

#[test]
fn initialize_refuses_a_slot_at_another_address() {
    let (mut ctx, _) = fresh(AuthorityRole::SwapAuthority, SWAP_LABEL);
    ctx.wrapper_swap_authority.address = Address::new([3u8; 32]);
    let before = ctx;
    assert_eq!(handler(&mut ctx), Err(WrapperError::AuthorizationMismatch));
    assert_eq!(ctx, before);
}

#[test]
fn initialize_refuses_the_address_of_another_role() {
    let (mut ctx, _) = fresh(AuthorityRole::SwapAuthority, SWAP_LABEL);
    ctx.role = AuthorityRole::MarketAuthority;
    let before = ctx;
    assert_eq!(handler(&mut ctx), Err(WrapperError::AuthorizationMismatch));
    assert_eq!(ctx, before);
}

#[test]
fn bind_stores_what_the_search_found() {
    let slot = Address::new([5u8; 32]);
    let mut ctx = InitializeWrapperAuthority {
        program_id: Address::new([6u8; 32]),
        role: AuthorityRole::SwapAuthority,
        wrapper_swap_authority: AuthoritySlot { address: slot, data: None },
    };
    assert_eq!(bind(&mut ctx, Some((slot, 250))), Ok(()));
    assert_eq!(ctx.wrapper_swap_authority.data, Some(WrapperSwapAuthority { bump: 250 }));
    assert_eq!(bind(&mut ctx, Some((slot, 249))), Err(WrapperError::AlreadyInitialized));
    assert_eq!(ctx.wrapper_swap_authority.data, Some(WrapperSwapAuthority { bump: 250 }));
    assert_eq!(bind(&mut ctx, None), Err(WrapperError::AlreadyInitialized));
    assert_eq!(ctx.wrapper_swap_authority.data, Some(WrapperSwapAuthority { bump: 250 }));
}

#[test]
fn bind_refuses_a_failed_or_foreign_search() {
    let slot = Address::new([5u8; 32]);
    let mut ctx = InitializeWrapperAuthority {
        program_id: Address::new([6u8; 32]),
        role: AuthorityRole::SwapAuthority,
        wrapper_swap_authority: AuthoritySlot { address: slot, data: None },
    };
    let before = ctx;
    assert_eq!(bind(&mut ctx, None), Err(WrapperError::AuthorizationMismatch));
    assert_eq!(ctx, before);
    assert_eq!(bind(&mut ctx, Some((Address::new([4u8; 32]), 255))), Err(WrapperError::AuthorizationMismatch));
    assert_eq!(ctx, before);
}

#[test]
fn proof_rebuilt_from_the_record_is_the_initial_one() {
    let (mut ctx, bump) = fresh(AuthorityRole::SwapAuthority, SWAP_LABEL);
    let initial = vec![SWAP_LABEL.to_vec(), vec![bump]];
    assert_eq!(handler(&mut ctx), Ok(()));
    let account = AuthorityAccount {
        address: ctx.wrapper_swap_authority.address,
        data: ctx.wrapper_swap_authority.data.unwrap(),
    };
    let rebuilt = account.rebuild_proof(AuthorityRole::SwapAuthority);
    assert_eq!(rebuilt, AuthorizationProof { role: AuthorityRole::SwapAuthority, salt: bump });
    assert_eq!(rebuilt.signer_seeds(), initial);
    assert_eq!(account.rebuild_proof(AuthorityRole::SwapAuthority).signer_seeds(), initial);
    assert_eq!(account.authorize(AuthorityRole::SwapAuthority, &ctx.program_id), Ok(rebuilt));
}

#[test]
fn authorize_refuses_what_does_not_derive_the_account() {
    let (mut ctx, bump) = fresh(AuthorityRole::SwapAuthority, SWAP_LABEL);
    assert_eq!(handler(&mut ctx), Ok(()));
    let account = AuthorityAccount {
        address: ctx.wrapper_swap_authority.address,
        data: ctx.wrapper_swap_authority.data.unwrap(),
    };
    let mismatch = Err(WrapperError::AuthorizationMismatch);

    // Another label.
    assert_eq!(account.authorize(AuthorityRole::MarketAuthority, &ctx.program_id), mismatch);
    // Another owning program.
    assert_eq!(account.authorize(AuthorityRole::SwapAuthority, &Address::new([2u8; 32])), mismatch);
    // Another salt.
    let wrong_salt = AuthorityAccount { data: WrapperSwapAuthority { bump: bump.wrapping_sub(1) }, ..account };
    assert_eq!(wrong_salt.authorize(AuthorityRole::SwapAuthority, &ctx.program_id), mismatch);
    // Another account.
    let elsewhere = AuthorityAccount { address: Address::new([8u8; 32]), ..account };
    assert_eq!(elsewhere.authorize(AuthorityRole::SwapAuthority, &ctx.program_id), mismatch);
}

#[test]
fn authorize_with_decides_on_the_identity_given() {
    let account = AuthorityAccount { address: Address::new([8u8; 32]), data: WrapperSwapAuthority { bump: 17 } };
    let role = AuthorityRole::MarketAuthority;
    assert_eq!(
        account.authorize_with(role, Some(Address::new([8u8; 32]))),
        Ok(AuthorizationProof { role, salt: 17 })
    );
    assert_eq!(
        account.authorize_with(role, Some(Address::new([9u8; 32]))),
        Err(WrapperError::AuthorizationMismatch)
    );
    assert_eq!(account.authorize_with(role, None), Err(WrapperError::AuthorizationMismatch));
}
