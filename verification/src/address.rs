//! Addresses, and how the ledger derives keyless addresses for a program.

use anchor_lang::prelude::Pubkey;
use vstd::prelude::*;

verus! {

/// The 32 bytes that name an account or a program on the ledger.
#[derive(Clone, Copy, Debug, PartialEq, Eq)]
pub struct Address {
    pub bytes: [u8; 32],
}

impl View for Address {
    type V = Seq<u8>;

    open spec fn view(&self) -> Seq<u8> {
        self.bytes@
    }
}

impl Address {
    pub fn new(bytes: [u8; 32]) -> (address: Address)
        ensures
            address.bytes == bytes,
    {
        Address { bytes }
    }

    pub fn to_bytes(&self) -> (bytes: [u8; 32])
        ensures
            bytes == self.bytes,
    {
        self.bytes
    }

    /// Whether two addresses hold the same 32 bytes.
    pub fn same_as(&self, other: &Address) -> (same: bool)
        ensures
            same == (*self == *other),
            same == (self@ == other@),
    {
        let mut i: usize = 0;
        while i < 32
            invariant
                i <= 32,
                forall|j: int| 0 <= j < i ==> self.bytes@[j] == other.bytes@[j],
            decreases 32 - i,
        {
            if self.bytes[i] != other.bytes[i] {
                return false;
            }
            i += 1;
        }
        assert(self.bytes =~= other.bytes);
        true
    }
}

/// The bytes of an address that may be missing.
pub open spec fn bytes_of(address: Option<Address>) -> Option<Seq<u8>> {
    match address {
        Some(a) => Some(a@),
        None => None,
    }
}

/// The address that the ledger derives for `program_id` from `seeds`, or
/// `None` where the seeds derive none.
///
/// This is what `Pubkey::create_program_address` computes: a hash over the
/// seeds, the program's address and a fixed marker, refused where the hash
/// is a point of the signature curve (such an address could have a private
/// key) and where there are too many seeds or one is too long.
pub uninterp spec fn program_address(seeds: Seq<Seq<u8>>, program_id: Seq<u8>) -> Option<Seq<u8>>;

/// The first salt, going down from `from` and stopping above zero, with which
/// `label` derives an address for `program_id`, together with that address.
pub open spec fn search_salt(label: Seq<u8>, program_id: Seq<u8>, from: nat) -> Option<(Seq<u8>, u8)>
    decreases from,
{
    if from == 0 {
        None
    } else {
        match program_address(seq![label, seq![from as u8]], program_id) {
            Some(address) => Some((address, from as u8)),
            None => search_salt(label, program_id, (from - 1) as nat),
        }
    }
}

/// The salt that the ledger picks for `label` under `program_id`, with the
/// address that it derives: the search starts at 255.
pub open spec fn canonical_salt(label: Seq<u8>, program_id: Seq<u8>) -> Option<(Seq<u8>, u8)> {
    search_salt(label, program_id, 255)
}

/// A salt that the search found derives the address found with it, and is
/// within the range searched.
pub proof fn lemma_search_salt_derives(label: Seq<u8>, program_id: Seq<u8>, from: nat)
    requires
        from <= 255,
    ensures
        search_salt(label, program_id, from) matches Some((address, salt)) ==> {
            &&& 1 <= salt <= from
            &&& program_address(seq![label, seq![salt]], program_id) == Some(address)
        },
    decreases from,
{
    if from > 0 {
        if program_address(seq![label, seq![from as u8]], program_id) is None {
            lemma_search_salt_derives(label, program_id, (from - 1) as nat);
        }
    }
}

/// Calls `Pubkey::create_program_address` with the two seeds `label` and
/// `[salt]`.
///
/// Trusted: the result is the address that the ledger derives from these
/// seeds for `program_id`; an error of the outside function, whichever it is,
/// becomes `None`.
#[verifier::external_body]
pub(crate) fn create_program_address(label: &[u8], salt: u8, program_id: &Address) -> (derived: Option<Address>)
    ensures
        bytes_of(derived) == program_address(seq![label@, seq![salt]], program_id@),
{
    let program = Pubkey::new_from_array(program_id.bytes);
    let derived = Pubkey::create_program_address(&[label, &[salt]], &program);
    derived.ok().map(|address| Address { bytes: address.to_bytes() })
}

/// Calls `Pubkey::try_find_program_address` with the single seed `label`.
///
/// Trusted: the outside function appends a one-byte salt to the seeds and
/// tries the salts 255, 254, ... down to 1 with `create_program_address`,
/// returning the first address that it derives together with its salt, and
/// `None` where no salt derives one.
#[verifier::external_body]
pub(crate) fn try_find_program_address(label: &[u8], program_id: &Address) -> (found: Option<(Address, u8)>)
    ensures
        match found {
            Some((address, salt)) => canonical_salt(label@, program_id@) == Some((address@, salt)),
            None => canonical_salt(label@, program_id@) is None,
        },
{
    let program = Pubkey::new_from_array(program_id.bytes);
    let found = Pubkey::try_find_program_address(&[label], &program);
    found.map(|(address, salt)| (Address { bytes: address.to_bytes() }, salt))
}

} // verus!
