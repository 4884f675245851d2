//! The creation of the authority record: done once, never undone.

use crate::address::{canonical_salt, lemma_search_salt_derives, try_find_program_address, Address};
use crate::error::WrapperError;
use crate::state::{AuthorityAccount, AuthorityRole, AuthoritySlot, AuthorizationProof, WrapperSwapAuthority};
use vstd::prelude::*;

verus! {

/// What initializing the authority works on.
#[derive(Clone, Copy, Debug, PartialEq, Eq)]
pub struct InitializeWrapperAuthority {
    /// The gateway's own program, under which its identity is derived.
    pub program_id: Address,
    /// The role that the authority is to sign in. It fixes the label.
    pub role: AuthorityRole,
    /// Where the record goes. The host allocates the account; the record is
    /// missing until this operation has written it.
    pub wrapper_swap_authority: AuthoritySlot,
}

impl InitializeWrapperAuthority {
    /// The salt that the ledger picks for this deployment, with the address
    /// that it derives.
    pub open spec fn canonical(self) -> Option<(Seq<u8>, u8)> {
        canonical_salt(self.role.label(), self.program_id@)
    }

    /// The same, with the record `record` in place.
    pub open spec fn holding(self, record: WrapperSwapAuthority) -> InitializeWrapperAuthority {
        InitializeWrapperAuthority {
            wrapper_swap_authority: AuthoritySlot { data: Some(record), ..self.wrapper_swap_authority },
            ..self
        }
    }
}

/// The address and salt of a search's result, as bytes.
pub open spec fn found_bytes(found: Option<(Address, u8)>) -> Option<(Seq<u8>, u8)> {
    match found {
        Some((address, salt)) => Some((address@, salt)),
        None => None,
    }
}

/// What an attempt to initialize comes to, and what it leaves behind, once
/// the search for the salt has ended with `found`.
///
/// A record that exists already is never touched: the attempt is refused.
/// Else the salt found is stored, provided that the address derived with it
/// is the address of the slot. Where it is another, or the search found
/// nothing, nothing is stored.
pub open spec fn initialized(ctx: InitializeWrapperAuthority, found: Option<(Seq<u8>, u8)>) -> (
    Result<(), WrapperError>,
    InitializeWrapperAuthority,
) {
    if ctx.wrapper_swap_authority.data is Some {
        (Err(WrapperError::AlreadyInitialized), ctx)
    } else {
        match found {
            Some((address, salt)) => if address == ctx.wrapper_swap_authority.address@ {
                (Ok(()), ctx.holding(WrapperSwapAuthority { bump: salt }))
            } else {
                (Err(WrapperError::AuthorizationMismatch), ctx)
            },
            None => (Err(WrapperError::AuthorizationMismatch), ctx),
        }
    }
}

/// What a run of attempts leaves behind, the searches having ended with
/// `founds` in turn.
pub open spec fn after_attempts(ctx: InitializeWrapperAuthority, founds: Seq<Option<(Seq<u8>, u8)>>)
    -> InitializeWrapperAuthority
    decreases founds.len(),
{
    if founds.len() == 0 {
        ctx
    } else {
        after_attempts(initialized(ctx, founds.first()).1, founds.drop_first())
    }
}

/// Binds the authority for a search that was made beforehand.
pub fn bind(ctx: &mut InitializeWrapperAuthority, found: Option<(Address, u8)>) -> (outcome: Result<
    (),
    WrapperError,
>)
    ensures
        (outcome, *final(ctx)) == initialized(*old(ctx), found_bytes(found)),
{
    if ctx.wrapper_swap_authority.data.is_some() {
        return Err(WrapperError::AlreadyInitialized);
    }
    match found {
        Some((address, salt)) => {
            if address.same_as(&ctx.wrapper_swap_authority.address) {
                let mut record = WrapperSwapAuthority { bump: 0 };
                record.initialize(salt);
                ctx.wrapper_swap_authority.data = Some(record);
                Ok(())
            } else {
                Err(WrapperError::AuthorizationMismatch)
            }
        },
        None => Err(WrapperError::AuthorizationMismatch),
    }
}

/// Initializes the authority: searches the salt that derives the signing
/// identity from the role's label, and stores it in the record.
///
/// A second initialization is an error and changes nothing.
pub fn handler(ctx: &mut InitializeWrapperAuthority) -> (outcome: Result<(), WrapperError>)
    ensures
        (outcome, *final(ctx)) == initialized(*old(ctx), old(ctx).canonical()),
        old(ctx).wrapper_swap_authority.data is Some ==> {
            &&& outcome == Err::<(), WrapperError>(WrapperError::AlreadyInitialized)
            &&& *final(ctx) == *old(ctx)
        },
{
    if ctx.wrapper_swap_authority.data.is_some() {
        return Err(WrapperError::AlreadyInitialized);
    }
    let found = try_find_program_address(ctx.role.seed(), &ctx.program_id);
    bind(ctx, found)
}

/// Once the record exists, no run of further attempts changes it, however
/// the searches behind them end: each attempt is refused as a second
/// initialization.
pub proof fn lemma_initialized_stays(ctx: InitializeWrapperAuthority, founds: Seq<Option<(Seq<u8>, u8)>>)
    requires
        ctx.wrapper_swap_authority.data is Some,
    ensures
        after_attempts(ctx, founds) == ctx,
        forall|i: int|
            0 <= i < founds.len() ==> (#[trigger] initialized(after_attempts(ctx, founds.take(i)), founds[i])).0
                == Err::<(), WrapperError>(WrapperError::AlreadyInitialized),
    decreases founds.len(),
{
    if founds.len() > 0 {
        lemma_initialized_stays(ctx, founds.drop_first());
    }
    assert forall|i: int| 0 <= i < founds.len() implies (#[trigger] initialized(
        after_attempts(ctx, founds.take(i)),
        founds[i],
    )).0 == Err::<(), WrapperError>(WrapperError::AlreadyInitialized) by {
        lemma_initialized_stays(ctx, founds.take(i));
    }
}

/// An initialization that went through is final: the attempt that follows it
/// is refused as a second initialization and leaves the stored salt as the
/// first one wrote it.
pub proof fn lemma_second_initialization_fails(
    ctx: InitializeWrapperAuthority,
    first: Option<(Seq<u8>, u8)>,
    second: Option<(Seq<u8>, u8)>,
)
    requires
        initialized(ctx, first).0 is Ok,
    ensures
        initialized(initialized(ctx, first).1, second) == (
            Err::<(), WrapperError>(WrapperError::AlreadyInitialized),
            initialized(ctx, first).1,
        ),
        first matches Some((_, salt)) && initialized(ctx, first).1.wrapper_swap_authority.data == Some(
            WrapperSwapAuthority { bump: salt },
        ),
{
}

/// A deployment has one authority for a role: two initializations for the
/// same role under the same program that both go through leave the same
/// record at the same address.
pub proof fn lemma_one_authority_per_role(first: InitializeWrapperAuthority, second: InitializeWrapperAuthority)
    requires
        first.program_id == second.program_id,
        first.role == second.role,
        initialized(first, first.canonical()).0 is Ok,
        initialized(second, second.canonical()).0 is Ok,
    ensures
        initialized(first, first.canonical()).1 == initialized(second, second.canonical()).1,
{
    assert(first.wrapper_swap_authority.address.bytes =~= second.wrapper_swap_authority.address.bytes);
}

/// The proof that is rebuilt from the record of an initialization is the
/// proof of that initialization: its seeds are, byte for byte, the role's
/// label and the salt found then, and it derives the address of the record's
/// own account. Authorizing with it is never refused as a mismatch.
pub proof fn lemma_rebuilt_proof_is_the_initial_one(ctx: InitializeWrapperAuthority)
    requires
        initialized(ctx, ctx.canonical()).0 is Ok,
    ensures
        ({
            let after = initialized(ctx, ctx.canonical()).1;
            let account = AuthorityAccount {
                address: after.wrapper_swap_authority.address,
                data: after.wrapper_swap_authority.data->0,
            };
            let rebuilt = account.rebuilt_proof(ctx.role);
            &&& after.wrapper_swap_authority.data is Some
            &&& ctx.canonical() matches Some((address, salt)) && address == account.address@
                && rebuilt.seeds() == seq![ctx.role.label(), seq![salt]] && salt >= 1
            &&& rebuilt.identity(ctx.program_id@) == Some(account.address@)
            &&& account.authorized(ctx.role, rebuilt.identity(ctx.program_id@)) == Ok::<
                AuthorizationProof,
                WrapperError,
            >(rebuilt)
        }),
{
    lemma_search_salt_derives(ctx.role.label(), ctx.program_id@, 255);
}

} // verus!
