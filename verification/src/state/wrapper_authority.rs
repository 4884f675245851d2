//! The authority record, and the authorization proof rebuilt from it.

use crate::address::{bytes_of, create_program_address, program_address, Address};
use crate::error::WrapperError;
use vstd::prelude::*;
use vstd::slice::slice_to_vec;
use vstd::string::StringSliceAdditionalSpecFns;

verus! {

/// The authority record: the one byte of salt that, together with a fixed
/// label, derives the gateway's signing identity.
///
/// It is written once, when the authority is initialized, and only read from
/// then on.
#[derive(Clone, Copy, Debug, PartialEq, Eq)]
pub struct WrapperSwapAuthority {
    pub bump: u8,
}

impl WrapperSwapAuthority {
    pub fn initialize(&mut self, bump: u8)
        ensures
            final(self).bump == bump,
    {
        self.bump = bump;
    }
}

/// The role in which the gateway signs for a market. The roles differ in the
/// label that their identity is derived from, and in nothing else.
#[derive(Clone, Copy, Debug, PartialEq, Eq)]
pub enum AuthorityRole {
    /// May swap on markets that are restricted to a swap authority.
    SwapAuthority,
    /// Holds authority over the market as a whole.
    MarketAuthority,
}

impl AuthorityRole {
    /// The fixed label of the role, as bytes.
    pub open spec fn label(self) -> Seq<u8> {
        match self {
            AuthorityRole::SwapAuthority => "wrapper_swap_authority".spec_bytes(),
            AuthorityRole::MarketAuthority => "wrapper_authority".spec_bytes(),
        }
    }

    /// The label as the seed that it is in a derivation. It fits in the 32
    /// bytes that the ledger allows for one seed.
    pub fn seed(&self) -> (seed: &'static [u8])
        ensures
            seed@ == self.label(),
            seed@.len() <= 32,
    {
        proof {
            lemma_labels();
        }
        match self {
            AuthorityRole::SwapAuthority => "wrapper_swap_authority".as_bytes(),
            AuthorityRole::MarketAuthority => "wrapper_authority".as_bytes(),
        }
    }
}

/// The labels byte by byte. Each is shorter than the 32 bytes that the ledger
/// allows for one seed.
pub proof fn lemma_labels()
    ensures
        AuthorityRole::SwapAuthority.label() == seq![
            119u8, 114, 97, 112, 112, 101, 114, 95, 115, 119, 97, 112, 95, 97, 117, 116, 104, 111, 114, 105, 116, 121,
        ],
        AuthorityRole::MarketAuthority.label() == seq![
            119u8, 114, 97, 112, 112, 101, 114, 95, 97, 117, 116, 104, 111, 114, 105, 116, 121,
        ],
{
    reveal_strlit("wrapper_swap_authority");
    reveal_strlit("wrapper_authority");
    vstd::string::is_ascii_spec_bytes("wrapper_swap_authority");
    vstd::string::is_ascii_spec_bytes("wrapper_authority");
    assert(AuthorityRole::SwapAuthority.label() =~= seq![
        119u8, 114, 97, 112, 112, 101, 114, 95, 115, 119, 97, 112, 95, 97, 117, 116, 104, 111, 114, 105, 116, 121,
    ]);
    assert(AuthorityRole::MarketAuthority.label() =~= seq![
        119u8, 114, 97, 112, 112, 101, 114, 95, 97, 117, 116, 104, 111, 114, 105, 116, 121,
    ]);
}

/// What is presented with a call in place of a signature: the label and the
/// salt from which the ledger derives the signer again.
#[derive(Clone, Copy, Debug, PartialEq, Eq)]
pub struct AuthorizationProof {
    pub role: AuthorityRole,
    pub salt: u8,
}

impl AuthorizationProof {
    /// The seeds of the proof, byte for byte: the label, then the salt.
    pub open spec fn seeds(self) -> Seq<Seq<u8>> {
        seq![self.role.label(), seq![self.salt]]
    }

    /// The identity that the proof derives for `program_id`, if any.
    pub open spec fn identity(self, program_id: Seq<u8>) -> Option<Seq<u8>> {
        program_address(self.seeds(), program_id)
    }

    /// The seeds as the host passes them on with a signed call.
    pub fn signer_seeds(&self) -> (seeds: Vec<Vec<u8>>)
        ensures
            seeds.deep_view() == self.seeds(),
    {
        let label = slice_to_vec(self.role.seed());
        let mut salt: Vec<u8> = Vec::new();
        salt.push(self.salt);
        let mut seeds: Vec<Vec<u8>> = Vec::new();
        seeds.push(label);
        seeds.push(salt);
        assert(seeds.deep_view() =~~= self.seeds());
        seeds
    }

    /// Derives the identity that the proof stands for under `program_id`.
    pub fn derive(&self, program_id: &Address) -> (identity: Option<Address>)
        ensures
            bytes_of(identity) == self.identity(program_id@),
    {
        create_program_address(self.role.seed(), self.salt, program_id)
    }
}

/// The place of the authority record: the address derived for it, and the
/// record once it has been written there.
#[derive(Clone, Copy, Debug, PartialEq, Eq)]
pub struct AuthoritySlot {
    pub address: Address,
    pub data: Option<WrapperSwapAuthority>,
}

/// The account that holds the authority record. Its address is the signing
/// identity itself.
#[derive(Clone, Copy, Debug, PartialEq, Eq)]
pub struct AuthorityAccount {
    pub address: Address,
    pub data: WrapperSwapAuthority,
}

impl AuthorityAccount {
    /// The proof that the stored salt gives for `role`.
    pub open spec fn rebuilt_proof(self, role: AuthorityRole) -> AuthorizationProof {
        AuthorizationProof { role, salt: self.data.bump }
    }

    pub fn rebuild_proof(&self, role: AuthorityRole) -> (rebuilt: AuthorizationProof)
        ensures
            rebuilt == self.rebuilt_proof(role),
    {
        AuthorizationProof { role, salt: self.data.bump }
    }

    /// What authorizing yields once the identity that the proof derives is
    /// known: the proof where that identity is this account's address, a
    /// mismatch where it is another address or none.
    pub open spec fn authorized(self, role: AuthorityRole, identity: Option<Seq<u8>>) -> Result<
        AuthorizationProof,
        WrapperError,
    > {
        if identity == Some(self.address@) {
            Ok(self.rebuilt_proof(role))
        } else {
            Err(WrapperError::AuthorizationMismatch)
        }
    }

    /// Decides on an identity that was derived beforehand.
    pub fn authorize_with(&self, role: AuthorityRole, identity: Option<Address>) -> (granted: Result<
        AuthorizationProof,
        WrapperError,
    >)
        ensures
            granted == self.authorized(role, bytes_of(identity)),
    {
        match identity {
            Some(derived) => {
                if derived.same_as(&self.address) {
                    Ok(AuthorizationProof { role, salt: self.data.bump })
                } else {
                    Err(WrapperError::AuthorizationMismatch)
                }
            },
            None => Err(WrapperError::AuthorizationMismatch),
        }
    }

    /// Rebuilds the proof from the stored salt and checks that it derives
    /// this account's address under `program_id`.
    pub fn authorize(&self, role: AuthorityRole, program_id: &Address) -> (granted: Result<
        AuthorizationProof,
        WrapperError,
    >)
        ensures
            granted == self.authorized(role, self.rebuilt_proof(role).identity(program_id@)),
    {
        let rebuilt = AuthorizationProof { role, salt: self.data.bump };
        let identity = rebuilt.derive(program_id);
        self.authorize_with(role, identity)
    }
}

} // verus!
