//! Addresses, and the deterministic derivation of the addresses under which the
//! escrow keeps its records.
//!
//! A record is never found by a free-form key. Its address is recomputed from
//! fixed labels, the identity it belongs to and a one-byte bump that was stored
//! when the record was created.

use anchor_lang::prelude::Pubkey;
use vstd::prelude::*;
use vstd::std_specs::cmp::PartialEqSpecImpl;

verus! {

/// A 32-byte identity: a user, a mint, a program or a record.
#[derive(Clone, Copy, Debug)]
pub struct Address {
    pub bytes: [u8; 32],
}

impl View for Address {
    type V = Seq<u8>;

    open spec fn view(&self) -> Seq<u8> {
        self.bytes@
    }
}

impl PartialEq for Address {
    fn eq(&self, other: &Address) -> (r: bool) {
        let mut i: usize = 0;
        while i < 32
            invariant
                i <= 32,
                forall|j: int| 0 <= j < i ==> self.bytes[j] == other.bytes[j],
            decreases 32 - i,
        {
            if self.bytes[i] != other.bytes[i] {
                return false;
            }
            i += 1;
        }
        proof {
            assert(self@ =~= other@);
        }
        true
    }
}

impl Eq for Address {}

impl PartialEqSpecImpl for Address {
    open spec fn obeys_eq_spec() -> bool {
        true
    }

    open spec fn eq_spec(&self, other: &Address) -> bool {
        self@ == other@
    }
}

impl Default for Address {
    /// The all-zero address.
    fn default() -> (r: Address)
        ensures
            r@ == Seq::new(32, |i: int| 0u8),
    {
        let r = Address { bytes: [0u8; 32] };
        proof {
            assert(r@ =~= Seq::new(32, |i: int| 0u8));
        }
        r
    }
}

/// The view of an address that may be absent.
pub open spec fn view_of(address: Option<Address>) -> Option<Seq<u8>> {
    match address {
        Some(a) => Some(a@),
        None => None,
    }
}

/// The view of a found address and its bump.
pub open spec fn view_of_found(found: Option<(Address, u8)>) -> Option<(Seq<u8>, u8)> {
    match found {
        Some((a, bump)) => Some((a@, bump)),
        None => None,
    }
}

/// The bytes of each seed of a list.
pub open spec fn seeds_view(seeds: Seq<Vec<u8>>) -> Seq<Seq<u8>> {
    Seq::new(seeds.len(), |i: int| seeds[i]@)
}

/// The address that `seeds` derive under `program` as they stand, with no bump
/// searched for; `None` where they derive none.
pub uninterp spec fn program_address(seeds: Seq<Seq<u8>>, program: Seq<u8>) -> Option<Seq<u8>>;

/// The address and the bump that a search over the bumps finds for `seeds` under
/// `program`; `None` where it finds none.
pub uninterp spec fn found_program_address(seeds: Seq<Seq<u8>>, program: Seq<u8>) -> Option<
    (Seq<u8>, u8),
>;

/// `Pubkey::create_program_address` of the Solana SDK, as `anchor_lang` hands it
/// on. Believed, not proved: the call is a function of its arguments alone, and
/// its result, with an error taken as `None`, is what `program_address` names.
#[verifier::external_body]
pub(crate) fn create_program_address(seeds: &Vec<Vec<u8>>, program: &Address) -> (r: Option<
    Address,
>)
    ensures
        view_of(r) == program_address(seeds_view(seeds@), program@),
{
    let parts: Vec<&[u8]> = seeds.iter().map(|seed| seed.as_slice()).collect();
    match Pubkey::create_program_address(&parts, &Pubkey::new_from_array(program.bytes)) {
        Ok(key) => Some(Address { bytes: key.to_bytes() }),
        Err(_) => None,
    }
}

/// `Pubkey::try_find_program_address` of the Solana SDK, as `anchor_lang` hands
/// it on. Believed, not proved: the call is a function of its arguments alone,
/// its result is what `found_program_address` names, and an address that it
/// finds is the one that the seeds derive once the bump it found is appended
/// as a last seed of one byte.
#[verifier::external_body]
pub(crate) fn try_find_program_address(seeds: &Vec<Vec<u8>>, program: &Address) -> (r: Option<
    (Address, u8),
>)
    ensures
        view_of_found(r) == found_program_address(seeds_view(seeds@), program@),
        r matches Some((address, bump)) ==> program_address(
            seeds_view(seeds@).push(seq![bump]),
            program@,
        ) == Some(address@),
{
    let parts: Vec<&[u8]> = seeds.iter().map(|seed| seed.as_slice()).collect();
    match Pubkey::try_find_program_address(&parts, &Pubkey::new_from_array(program.bytes)) {
        Some((key, bump)) => Some((Address { bytes: key.to_bytes() }, bump)),
        None => None,
    }
}

/// The label under which the escrow's configuration is kept: the text `Escrow`.
pub open spec fn escrow_label() -> Seq<u8> {
    seq![0x45u8, 0x73u8, 0x63u8, 0x72u8, 0x6fu8, 0x77u8]
}

/// The label under which a user's balance is kept: the text `UserState`.
pub open spec fn user_state_label() -> Seq<u8> {
    seq![0x55u8, 0x73u8, 0x65u8, 0x72u8, 0x53u8, 0x74u8, 0x61u8, 0x74u8, 0x65u8]
}

/// The seeds of the escrow's configuration, without a bump.
pub open spec fn escrow_seeds() -> Seq<Seq<u8>> {
    seq![escrow_label()]
}

/// The seeds of the balance of `user`, without a bump.
pub open spec fn user_state_seeds(user: Seq<u8>) -> Seq<Seq<u8>> {
    seq![user_state_label(), user]
}

/// The seeds that sign for the escrow: its label, then its bump.
pub open spec fn signer_seeds(bump: u8) -> Seq<Seq<u8>> {
    escrow_seeds().push(seq![bump])
}

/// The seeds of the balance of `user`, with the bump stored in it.
pub open spec fn user_state_seeds_with(user: Seq<u8>, bump: u8) -> Seq<Seq<u8>> {
    user_state_seeds(user).push(seq![bump])
}

fn escrow_label_bytes() -> (r: Vec<u8>)
    ensures
        r@ == escrow_label(),
{
    let r: Vec<u8> = vec![0x45u8, 0x73u8, 0x63u8, 0x72u8, 0x6fu8, 0x77u8];
    proof {
        assert(r@ =~= escrow_label());
    }
    r
}

fn user_state_label_bytes() -> (r: Vec<u8>)
    ensures
        r@ == user_state_label(),
{
    let r: Vec<u8> = vec![0x55u8, 0x73u8, 0x65u8, 0x72u8, 0x53u8, 0x74u8, 0x61u8, 0x74u8, 0x65u8];
    proof {
        assert(r@ =~= user_state_label());
    }
    r
}

fn bump_seed(bump: u8) -> (r: Vec<u8>)
    ensures
        r@ == seq![bump],
{
    let r: Vec<u8> = vec![bump];
    proof {
        assert(r@ =~= seq![bump]);
    }
    r
}

impl Address {
    /// The bytes of the address, as a seed.
    pub fn to_seed(&self) -> (r: Vec<u8>)
        ensures
            r@ == self@,
    {
        let mut r: Vec<u8> = Vec::new();
        let mut i: usize = 0;
        while i < 32
            invariant
                i <= 32,
                r@.len() == i,
                forall|j: int| 0 <= j < i ==> r@[j] == self.bytes[j],
            decreases 32 - i,
        {
            r.push(self.bytes[i]);
            i += 1;
        }
        proof {
            assert(r@ =~= self@);
        }
        r
    }
}

/// The seeds that sign for the escrow, for the call that moves tokens out of
/// its custody.
pub fn escrow_signer_seeds(bump: u8) -> (r: Vec<Vec<u8>>)
    ensures
        seeds_view(r@) == signer_seeds(bump),
{
    let r: Vec<Vec<u8>> = vec![escrow_label_bytes(), bump_seed(bump)];
    proof {
        assert(seeds_view(r@) =~= signer_seeds(bump));
    }
    r
}

/// Searches for the escrow's address under `program`, and for the bump to store
/// with its configuration.
pub fn find_escrow_address(program: &Address) -> (r: Option<(Address, u8)>)
    ensures
        view_of_found(r) == found_program_address(escrow_seeds(), program@),
        r matches Some((address, bump)) ==> program_address(signer_seeds(bump), program@) == Some(
            address@,
        ),
{
    let seeds: Vec<Vec<u8>> = vec![escrow_label_bytes()];
    proof {
        assert(seeds_view(seeds@) =~= escrow_seeds());
    }
    try_find_program_address(&seeds, program)
}

/// The escrow's address under `program`, recomputed from the bump that was
/// stored with its configuration.
pub fn escrow_address(program: &Address, bump: u8) -> (r: Option<Address>)
    ensures
        view_of(r) == program_address(signer_seeds(bump), program@),
{
    let seeds = escrow_signer_seeds(bump);
    create_program_address(&seeds, program)
}

/// Searches for the address of the balance of `user` under `program`, and for
/// the bump to store with it.
pub fn find_user_state_address(program: &Address, user: &Address) -> (r: Option<(Address, u8)>)
    ensures
        view_of_found(r) == found_program_address(user_state_seeds(user@), program@),
        r matches Some((address, bump)) ==> program_address(
            user_state_seeds_with(user@, bump),
            program@,
        ) == Some(address@),
{
    let seeds: Vec<Vec<u8>> = vec![user_state_label_bytes(), user.to_seed()];
    proof {
        assert(seeds_view(seeds@) =~= user_state_seeds(user@));
    }
    try_find_program_address(&seeds, program)
}

/// The address of the balance of `user` under `program`, recomputed from the
/// bump that was stored with it.
pub fn user_state_address(program: &Address, user: &Address, bump: u8) -> (r: Option<Address>)
    ensures
        view_of(r) == program_address(user_state_seeds_with(user@, bump), program@),
{
    let seeds: Vec<Vec<u8>> = vec![user_state_label_bytes(), user.to_seed(), bump_seed(bump)];
    proof {
        assert(seeds_view(seeds@) =~= user_state_seeds_with(user@, bump));
    }
    create_program_address(&seeds, program)
}

} // verus!
