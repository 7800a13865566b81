//! Account addresses and the derivation of a caller's record address.

use anchor_lang::prelude::Pubkey;
use vstd::prelude::*;
use vstd::string::StringSliceAdditionalSpecFns;

verus! {

/// The address under which the program is deployed:
/// `CRGr5Y2bChPmkVShA9E3DrLTTQ1MUvS9TDf6fFNADgjC` in base 58.
pub const PROGRAM_ID: [u8; 32] = [
    169, 168, 105, 182, 38, 62, 27, 167, 39, 29, 225, 175, 130, 202, 87, 200,
    242, 253, 243, 158, 153, 8, 149, 52, 238, 5, 10, 54, 202, 39, 135, 27,
];

/// A 32-byte account address. A caller's identity and the location of a
/// record are both addresses.
#[derive(Clone, Copy, Debug, PartialEq, Eq)]
pub struct Address {
    pub bytes: [u8; 32],
}

impl View for Address {
    type V = Seq<u8>;

    open spec fn view(&self) -> Seq<u8> {
        self.bytes@
    }
}

impl Address {
    /// Byte-wise comparison of two addresses.
    pub fn same(&self, other: &Address) -> (equal: bool)
        ensures
            equal == (self@ == other@),
    {
        let mut i: usize = 0;
        while i < 32
            invariant
                i <= 32,
                forall|j: int| 0 <= j < i ==> self.bytes@[j] == other.bytes@[j],
            decreases 32 - i,
        {
            if self.bytes[i] != other.bytes[i] {
                return false;
            }
            i += 1;
        }
        assert(self@ =~= other@);
        true
    }
}

/// What `Pubkey::try_find_program_address` yields for the seed list `seeds`
/// under the program `program_id`: the derived address with its bump seed, or
/// nothing when no bump seed gives an address off the curve.
pub uninterp spec fn program_address(seeds: Seq<Seq<u8>>, program_id: Seq<u8>) -> Option<
    (Seq<u8>, u8),
>;

/// The seed list from which a caller's record address is derived: the tag,
/// then the caller's key.
pub open spec fn favorites_seeds(user: Seq<u8>) -> Seq<Seq<u8>> {
    seq!["favorites".spec_bytes(), user]
}

/// The record address of `user` with its bump seed, as a mathematical value.
pub open spec fn favorites_address_of(user: Seq<u8>) -> Option<(Seq<u8>, u8)> {
    program_address(favorites_seeds(user), PROGRAM_ID@)
}

/// The mathematical value of a derived address and bump seed.
pub open spec fn derived_view(derived: Option<(Address, u8)>) -> Option<(Seq<u8>, u8)> {
    match derived {
        Some((address, bump)) => Some((address@, bump)),
        None => None,
    }
}

/// Calls `Pubkey::try_find_program_address` with the two seeds `tag` and
/// `key` under the program `program_id`.
///
/// Nothing is proved of the derivation. The contract only gives its result a
/// name: what comes back is what that function computes from these seeds and
/// this program id, which depends on nothing else.
#[verifier::external_body]
fn try_find_program_address(tag: &[u8], key: &[u8; 32], program_id: &[u8; 32]) -> (derived: Option<
    (Address, u8),
>)
    ensures
        derived_view(derived) == program_address(seq![tag@, key@], program_id@),
{
    let program = Pubkey::new_from_array(*program_id);
    match Pubkey::try_find_program_address(&[tag, &key[..]], &program) {
        Some((address, bump)) => Some((Address { bytes: address.to_bytes() }, bump)),
        None => None,
    }
}

/// Derives the address of the record that belongs to `user`, together with the
/// bump seed of the derivation.
pub fn favorites_address(user: &Address) -> (derived: Option<(Address, u8)>)
    ensures
        derived_view(derived) == favorites_address_of(user@),
{
    try_find_program_address("favorites".as_bytes(), &user.bytes, &PROGRAM_ID)
}

} // verus!
