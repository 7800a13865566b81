//! The one operation of the program: storing a caller's favorites.

use crate::address::{derived_view, favorites_address, favorites_address_of, Address};
use crate::ledger::{Ledger, LedgerView};
use crate::record::{fits, Favorites, FavoritesView};
use vstd::prelude::*;

verus! {

/// The account of whoever makes a call: its key, whether the call carries its
/// signature, and the funds it holds.
#[derive(Clone, Copy, Debug, PartialEq, Eq)]
pub struct Caller {
    pub key: Address,
    pub is_signer: bool,
    pub lamports: u64,
}

/// The accounts that accompany a call of [`set_favorites`]: the caller, and
/// the address of the record that the call is to write.
#[derive(Clone, Copy, Debug, PartialEq, Eq)]
pub struct SetFavorites {
    pub user: Caller,
    pub favorites: Address,
}

/// Why a call of [`set_favorites`] was rejected.
#[derive(Clone, Copy, Debug, PartialEq, Eq)]
pub enum FavoritesError {
    /// The caller did not sign the call.
    NotSigned,
    /// The record address given is not the one derived from the caller's key.
    AddressMismatch,
    /// The color or the hobbies exceed the bounds of a record.
    CapacityExceeded,
    /// The record does not exist yet and the caller cannot pay for creating it.
    InsufficientFunds,
}

/// Whether the derivation gave the address `address`.
pub open spec fn derives(derived: Option<(Seq<u8>, u8)>, address: Seq<u8>) -> bool {
    match derived {
        Some((found, _)) => found == address,
        None => false,
    }
}

/// How a call ends. The checks are made in this order: the signature, the
/// record address against the derived one, the bounds of the record, and, for
/// a record that does not exist yet, the caller's funds.
pub open spec fn outcome_at(
    ledger: LedgerView,
    context: SetFavorites,
    derived: Option<(Seq<u8>, u8)>,
    color: Seq<char>,
    hobbies: Seq<Seq<char>>,
) -> Result<(), FavoritesError> {
    if !context.user.is_signer {
        Err(FavoritesError::NotSigned)
    } else if !derives(derived, context.favorites@) {
        Err(FavoritesError::AddressMismatch)
    } else if !fits(color, hobbies) {
        Err(FavoritesError::CapacityExceeded)
    } else if !ledger.records.contains_key(context.favorites@) && context.user.lamports
        < ledger.creation_cost {
        Err(FavoritesError::InsufficientFunds)
    } else {
        Ok(())
    }
}

/// The ledger after a call: on success the record at the caller's address is
/// the new one, whatever was there before; a rejected call changes nothing.
pub open spec fn ledger_after_at(
    ledger: LedgerView,
    context: SetFavorites,
    derived: Option<(Seq<u8>, u8)>,
    number: u64,
    color: Seq<char>,
    hobbies: Seq<Seq<char>>,
) -> LedgerView {
    if outcome_at(ledger, context, derived, color, hobbies) is Ok {
        LedgerView {
            creation_cost: ledger.creation_cost,
            records: ledger.records.insert(
                context.favorites@,
                FavoritesView { number, color, hobbies },
            ),
        }
    } else {
        ledger
    }
}

/// The accounts after a call: a successful call that had to create the record
/// has taken the creation cost from the caller; any other call changes
/// nothing.
pub open spec fn context_after_at(
    ledger: LedgerView,
    context: SetFavorites,
    derived: Option<(Seq<u8>, u8)>,
    color: Seq<char>,
    hobbies: Seq<Seq<char>>,
) -> SetFavorites {
    if outcome_at(ledger, context, derived, color, hobbies) is Ok && !ledger.records.contains_key(
        context.favorites@,
    ) {
        SetFavorites {
            user: Caller {
                lamports: (context.user.lamports - ledger.creation_cost) as u64,
                ..context.user
            },
            ..context
        }
    } else {
        context
    }
}

/// The record found at a derived address, if the derivation gave an address
/// and a record is kept there.
pub open spec fn record_at(ledger: LedgerView, derived: Option<(Seq<u8>, u8)>) -> Option<
    FavoritesView,
> {
    match derived {
        Some((address, _)) => if ledger.records.contains_key(address) {
            Some(ledger.records[address])
        } else {
            None
        },
        None => None,
    }
}

/// How a call of [`set_favorites`] ends: as [`outcome_at`] says for the
/// address derived from the caller's key.
pub open spec fn outcome(
    ledger: LedgerView,
    context: SetFavorites,
    color: Seq<char>,
    hobbies: Seq<Seq<char>>,
) -> Result<(), FavoritesError> {
    outcome_at(ledger, context, favorites_address_of(context.user.key@), color, hobbies)
}

/// The ledger after a call of [`set_favorites`].
pub open spec fn ledger_after(
    ledger: LedgerView,
    context: SetFavorites,
    number: u64,
    color: Seq<char>,
    hobbies: Seq<Seq<char>>,
) -> LedgerView {
    ledger_after_at(
        ledger,
        context,
        favorites_address_of(context.user.key@),
        number,
        color,
        hobbies,
    )
}

/// The accounts after a call of [`set_favorites`].
pub open spec fn context_after(
    ledger: LedgerView,
    context: SetFavorites,
    color: Seq<char>,
    hobbies: Seq<Seq<char>>,
) -> SetFavorites {
    context_after_at(ledger, context, favorites_address_of(context.user.key@), color, hobbies)
}

/// The record that belongs to `user`: the one kept at the address derived
/// from the key `user`, if there is one.
pub open spec fn favorites_in(ledger: LedgerView, user: Seq<u8>) -> Option<FavoritesView> {
    record_at(ledger, favorites_address_of(user))
}

/// The mathematical value of a record that may be absent.
pub open spec fn record_view(record: Option<&Favorites>) -> Option<FavoritesView> {
    match record {
        Some(found) => Some(found@),
        None => None,
    }
}

/// Stores the caller's favorites, given the address `derived` from the
/// caller's key.
///
/// The call is rejected, and nothing changes, when the caller has not signed,
/// when `context.favorites` is not the derived address, when `color` or
/// `hobbies` exceed the bounds of a record, or when the record does not exist
/// yet and the caller holds less than the creation cost. Otherwise the record
/// at the caller's address becomes `(number, color, hobbies)`, and a caller
/// whose record had to be created has paid the creation cost.
pub fn set_favorites_at(
    ledger: &mut Ledger,
    context: &mut SetFavorites,
    derived: Option<(Address, u8)>,
    number: u64,
    color: String,
    hobbies: Vec<String>,
) -> (result: Result<(), FavoritesError>)
    requires
        old(ledger).wf(),
    ensures
        final(ledger).wf(),
        result == outcome_at(
            old(ledger)@,
            *old(context),
            derived_view(derived),
            color@,
            hobbies.deep_view(),
        ),
        final(ledger)@ == ledger_after_at(
            old(ledger)@,
            *old(context),
            derived_view(derived),
            number,
            color@,
            hobbies.deep_view(),
        ),
        *final(context) == context_after_at(
            old(ledger)@,
            *old(context),
            derived_view(derived),
            color@,
            hobbies.deep_view(),
        ),
{
    if !context.user.is_signer {
        return Err(FavoritesError::NotSigned);
    }
    let target = match derived {
        Some((address, _)) => address,
        None => {
            return Err(FavoritesError::AddressMismatch);
        },
    };
    if !target.same(&context.favorites) {
        return Err(FavoritesError::AddressMismatch);
    }
    if !Favorites::within_capacity(&color, &hobbies) {
        return Err(FavoritesError::CapacityExceeded);
    }
    if !ledger.contains(&target) {
        let cost = ledger.creation_cost();
        if context.user.lamports < cost {
            return Err(FavoritesError::InsufficientFunds);
        }
        context.user.lamports = context.user.lamports - cost;
    }
    ledger.store(target, Favorites { number, color, hobbies });
    Ok(())
}

/// Stores the caller's favorites in the record that belongs to the caller.
///
/// The record's address is derived from the tag `"favorites"` and the
/// caller's key; with that address the call proceeds as
/// [`set_favorites_at`] says.
pub fn set_favorites(
    ledger: &mut Ledger,
    context: &mut SetFavorites,
    number: u64,
    color: String,
    hobbies: Vec<String>,
) -> (result: Result<(), FavoritesError>)
    requires
        old(ledger).wf(),
    ensures
        final(ledger).wf(),
        result == outcome(old(ledger)@, *old(context), color@, hobbies.deep_view()),
        final(ledger)@ == ledger_after(
            old(ledger)@,
            *old(context),
            number,
            color@,
            hobbies.deep_view(),
        ),
        *final(context) == context_after(old(ledger)@, *old(context), color@, hobbies.deep_view()),
{
    let derived = favorites_address(&context.user.key);
    set_favorites_at(ledger, context, derived, number, color, hobbies)
}

/// The record that belongs to `user`, if it exists.
pub fn favorites_of<'a>(ledger: &'a Ledger, user: &Address) -> (record: Option<&'a Favorites>)
    requires
        ledger.wf(),
    ensures
        record_view(record) == favorites_in(ledger@, user@),
{
    match favorites_address(user) {
        Some((address, _)) => ledger.read(&address),
        None => None,
    }
}

} // verus!
