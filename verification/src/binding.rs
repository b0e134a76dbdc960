//! Identities, vault addresses, and the derivation that binds a vault's
//! address to the identity of its administrator.

use vstd::prelude::*;
use vstd::std_specs::cmp::PartialEqSpecImpl;
use anchor_lang::prelude::Pubkey;
use anchor_lang::solana_program::pubkey::PubkeyError;

verus! {

/// Whether two keys hold the same bytes.
pub fn same_bytes(a: &[u8; 32], b: &[u8; 32]) -> (same: bool)
    ensures
        same == (a@ == b@),
        same == (*a == *b),
{
    let mut i: usize = 0;
    while i < 32
        invariant
            i <= 32,
            forall|j: int| 0 <= j < i ==> a[j] == b[j],
        decreases 32 - i,
    {
        if a[i] != b[i] {
            return false;
        }
        i += 1;
    }
    assert(*a =~= *b);
    true
}

/// The identity of an authenticated party.
#[derive(Clone, Copy, Debug)]
pub struct Identity {
    pub bytes: [u8; 32],
}

impl View for Identity {
    type V = Seq<u8>;

    open spec fn view(&self) -> Seq<u8> {
        self.bytes@
    }
}

impl Identity {
    /// Whether this is the unset identity, whose bytes are all zero.
    pub open spec fn is_unset(&self) -> bool {
        forall|i: int| 0 <= i < 32 ==> self.bytes[i] == 0
    }

    /// There is one unset identity.
    pub proof fn lemma_unset_is_unique(a: Identity, b: Identity)
        requires
            a.is_unset(),
            b.is_unset(),
        ensures
            a == b,
    {
        assert(a.bytes =~= b.bytes);
    }
}

impl Default for Identity {
    /// The unset identity.
    fn default() -> (unset: Identity)
        ensures
            unset.is_unset(),
    {
        Identity { bytes: [0u8; 32] }
    }
}

impl PartialEq for Identity {
    fn eq(&self, other: &Identity) -> (same: bool) {
        same_bytes(&self.bytes, &other.bytes)
    }
}

impl Eq for Identity {}

impl PartialEqSpecImpl for Identity {
    open spec fn obeys_eq_spec() -> bool {
        true
    }

    open spec fn eq_spec(&self, other: &Identity) -> bool {
        *self == *other
    }
}

/// The address at which a vault's record is kept.
#[derive(Clone, Copy, Debug)]
pub struct Address {
    pub bytes: [u8; 32],
}

impl View for Address {
    type V = Seq<u8>;

    open spec fn view(&self) -> Seq<u8> {
        self.bytes@
    }
}

impl PartialEq for Address {
    fn eq(&self, other: &Address) -> (same: bool) {
        same_bytes(&self.bytes, &other.bytes)
    }
}

impl Eq for Address {}

impl PartialEqSpecImpl for Address {
    open spec fn obeys_eq_spec() -> bool {
        true
    }

    open spec fn eq_spec(&self, other: &Address) -> bool {
        *self == *other
    }
}

/// The tag that separates vault addresses from any other address derived for
/// the same program.
pub const VAULT_TAG: [u8; 5] = [118, 97, 117, 108, 116];

/// The address of the program that owns every vault.
pub const PROGRAM_ID: [u8; 32] = [
    119, 222, 222, 85, 107, 243, 133, 20, 228, 130, 120, 62, 172, 68, 124, 179,
    75, 76, 24, 97, 238, 45, 242, 30, 200, 29, 139, 145, 209, 83, 68, 240,
];

/// The error of `Pubkey::create_program_address`. Nothing is read from it.
#[verifier::external_type_specification]
#[verifier::external_body]
pub struct ExPubkeyError(anchor_lang::solana_program::pubkey::PubkeyError);

/// Names what `Pubkey::try_find_program_address` returns for the given seeds
/// and program: a derived address with its bump seed, or nothing. The search
/// hashes its arguments and reads nothing else.
pub uninterp spec fn found_program_address(seeds: Seq<Seq<u8>>, program_id: Seq<u8>) -> Option<(Seq<u8>, u8)>;

/// Names what `Pubkey::create_program_address` returns for the given seeds
/// and program: the derived address, or nothing where it returns an error.
/// The computation hashes its arguments and reads nothing else.
pub uninterp spec fn created_program_address(seeds: Seq<Seq<u8>>, program_id: Seq<u8>) -> Option<Seq<u8>>;

/// Calls `Pubkey::try_find_program_address` on the seeds `[tag, key]`.
///
/// Not proved: that the result is the one named by `found_program_address`;
/// and that an address found with a bump seed is the address that
/// `Pubkey::create_program_address` gives for the same seeds followed by that
/// bump seed, which is how the search finds it.
#[verifier::external_body]
fn try_find_program_address(
    tag: &[u8],
    key: &[u8; 32],
    program_id: &[u8; 32],
) -> (found: Option<([u8; 32], u8)>)
    ensures
        match found {
            Some((address, bump)) => {
                &&& found_program_address(seq![tag@, key@], program_id@) == Some((address@, bump))
                &&& created_program_address(seq![tag@, key@, seq![bump]], program_id@) == Some(
                    address@,
                )
            },
            None => found_program_address(seq![tag@, key@], program_id@) is None,
        },
{
    Pubkey::try_find_program_address(&[tag, &key[..]], &Pubkey::new_from_array(*program_id))
        .map(|(address, bump)| (address.to_bytes(), bump))
}

/// Calls `Pubkey::create_program_address` on the seeds `[tag, key, [bump]]`.
///
/// Not proved: that the result is the one named by
/// `created_program_address`.
#[verifier::external_body]
fn create_program_address(
    tag: &[u8],
    key: &[u8; 32],
    bump: u8,
    program_id: &[u8; 32],
) -> (created: Result<[u8; 32], PubkeyError>)
    ensures
        match created {
            Ok(address) => created_program_address(seq![tag@, key@, seq![bump]], program_id@)
                == Some(address@),
            Err(_) => created_program_address(seq![tag@, key@, seq![bump]], program_id@) is None,
        },
{
    Pubkey::create_program_address(&[tag, &key[..], &[bump]], &Pubkey::new_from_array(*program_id))
        .map(|address| address.to_bytes())
}

/// The seeds from which the address of `admin`'s vault is searched.
pub open spec fn vault_seeds(admin: Identity) -> Seq<Seq<u8>> {
    seq![VAULT_TAG@, admin@]
}

/// The seeds from which the address of `admin`'s vault is computed once the
/// bump seed is known.
pub open spec fn vault_seeds_with_bump(admin: Identity, bump: u8) -> Seq<Seq<u8>> {
    seq![VAULT_TAG@, admin@, seq![bump]]
}

/// Whether the search for the address of `admin`'s vault gives `address`
/// with the bump seed `bump`.
pub open spec fn derives(admin: Identity, address: Address, bump: u8) -> bool {
    found_program_address(vault_seeds(admin), PROGRAM_ID@) == Some((address@, bump))
}

/// Whether the search for the address of `admin`'s vault gives any address.
pub open spec fn derivable(admin: Identity) -> bool {
    found_program_address(vault_seeds(admin), PROGRAM_ID@) is Some
}

/// Whether `address` is what `admin` and `bump` compute: the test that a
/// record found at `address` is the vault of `admin`.
pub open spec fn binds(address: Address, admin: Identity, bump: u8) -> bool {
    created_program_address(vault_seeds_with_bump(admin, bump), PROGRAM_ID@) == Some(address@)
}

/// Searches the address of `admin`'s vault and the bump seed that goes with it.
pub fn derive_address(admin: &Identity) -> (derived: Option<(Address, u8)>)
    ensures
        match derived {
            Some((address, bump)) => derives(*admin, address, bump) && binds(address, *admin, bump),
            None => !derivable(*admin),
        },
{
    match try_find_program_address(&VAULT_TAG, &admin.bytes, &PROGRAM_ID) {
        Some((bytes, bump)) => Some((Address { bytes }, bump)),
        None => None,
    }
}

/// Computes the address anew from `admin` and `bump` and compares it with
/// `address`.
pub fn is_bound(address: &Address, admin: &Identity, bump: u8) -> (bound: bool)
    ensures
        bound == binds(*address, *admin, bump),
{
    match create_program_address(&VAULT_TAG, &admin.bytes, bump, &PROGRAM_ID) {
        Ok(bytes) => same_bytes(&bytes, &address.bytes),
        Err(_) => false,
    }
}

} // verus!
