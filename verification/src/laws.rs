//! What holds of every call of `set_favorites`, proved from its contract.

use crate::address::favorites_address_of;
use crate::ledger::LedgerView;
use crate::program::{
    context_after, derives, favorites_in, ledger_after, outcome, FavoritesError, SetFavorites,
};
use crate::record::{byte_len, fits, FavoritesView, MAX_COLOR_LEN, MAX_HOBBIES, MAX_HOBBY_LEN};
use vstd::prelude::*;

verus! {

/// Two keys share a record when the derivation gives both the same address.
pub open spec fn share_record(first: Seq<u8>, second: Seq<u8>) -> bool {
    match favorites_address_of(first) {
        Some((address, _)) => derives(favorites_address_of(second), address),
        None => false,
    }
}

/// A call that succeeds is read back exactly: afterwards the caller's record
/// is the number, the color and the hobbies that the call was given.
pub proof fn law_read_after_write(
    ledger: LedgerView,
    context: SetFavorites,
    number: u64,
    color: Seq<char>,
    hobbies: Seq<Seq<char>>,
)
    requires
        outcome(ledger, context, color, hobbies) is Ok,
    ensures
        favorites_in(ledger_after(ledger, context, number, color, hobbies), context.user.key@)
            == Some(FavoritesView { number, color, hobbies }),
{
}

/// A call that is rejected leaves the ledger and the accounts as they were.
pub proof fn law_rejection_changes_nothing(
    ledger: LedgerView,
    context: SetFavorites,
    number: u64,
    color: Seq<char>,
    hobbies: Seq<Seq<char>>,
)
    requires
        outcome(ledger, context, color, hobbies) is Err,
    ensures
        ledger_after(ledger, context, number, color, hobbies) == ledger,
        context_after(ledger, context, color, hobbies) == context,
{
}

/// A color of more than [`MAX_COLOR_LEN`] bytes, more than [`MAX_HOBBIES`]
/// hobbies, or a hobby of more than [`MAX_HOBBY_LEN`] bytes is always
/// rejected; and when nothing else is wrong with the call, the error says so.
pub proof fn law_over_capacity_rejected(
    ledger: LedgerView,
    context: SetFavorites,
    color: Seq<char>,
    hobbies: Seq<Seq<char>>,
)
    requires
        byte_len(color) > MAX_COLOR_LEN || hobbies.len() > MAX_HOBBIES || exists|i: int|
            0 <= i < hobbies.len() && byte_len(#[trigger] hobbies[i]) > MAX_HOBBY_LEN,
    ensures
        outcome(ledger, context, color, hobbies) is Err,
        context.user.is_signer && derives(
            favorites_address_of(context.user.key@),
            context.favorites@,
        ) ==> outcome(ledger, context, color, hobbies) == Err::<(), FavoritesError>(
            FavoritesError::CapacityExceeded,
        ),
{
}

/// Only its owner writes a record: a call changes what is kept at an address
/// only if the caller has signed and the address is the one derived from the
/// caller's key.
pub proof fn law_only_owner_writes(
    ledger: LedgerView,
    context: SetFavorites,
    number: u64,
    color: Seq<char>,
    hobbies: Seq<Seq<char>>,
    address: Seq<u8>,
)
    requires
        ({
            let end = ledger_after(ledger, context, number, color, hobbies);
            ||| end.records.contains_key(address) != ledger.records.contains_key(address)
            ||| end.records[address] != ledger.records[address]
        }),
    ensures
        context.user.is_signer,
        derives(favorites_address_of(context.user.key@), address),
{
}

/// No call deletes a record: an address that held a record before a call
/// holds one after it.
pub proof fn law_records_persist(
    ledger: LedgerView,
    context: SetFavorites,
    number: u64,
    color: Seq<char>,
    hobbies: Seq<Seq<char>>,
    address: Seq<u8>,
)
    requires
        ledger.records.contains_key(address),
    ensures
        ledger_after(ledger, context, number, color, hobbies).records.contains_key(address),
{
}

/// Callers do not interfere: a call by one caller, whether it succeeds or
/// not, leaves the record of every caller with another record address as it
/// was, and does not change how that caller's next call ends.
pub proof fn law_isolation(
    ledger: LedgerView,
    context: SetFavorites,
    number: u64,
    color: Seq<char>,
    hobbies: Seq<Seq<char>>,
    other: SetFavorites,
    other_color: Seq<char>,
    other_hobbies: Seq<Seq<char>>,
)
    requires
        !share_record(context.user.key@, other.user.key@),
    ensures
        favorites_in(ledger_after(ledger, context, number, color, hobbies), other.user.key@)
            == favorites_in(ledger, other.user.key@),
        outcome(
            ledger_after(ledger, context, number, color, hobbies),
            other,
            other_color,
            other_hobbies,
        ) == outcome(ledger, other, other_color, other_hobbies),
{
}

/// Calls by callers with different record addresses commute: whichever of the
/// two comes first, the ledger ends up the same.
pub proof fn law_order_is_immaterial(
    ledger: LedgerView,
    first: SetFavorites,
    first_number: u64,
    first_color: Seq<char>,
    first_hobbies: Seq<Seq<char>>,
    second: SetFavorites,
    second_number: u64,
    second_color: Seq<char>,
    second_hobbies: Seq<Seq<char>>,
)
    requires
        !share_record(first.user.key@, second.user.key@),
    ensures
        ledger_after(
            ledger_after(ledger, first, first_number, first_color, first_hobbies),
            second,
            second_number,
            second_color,
            second_hobbies,
        ) == ledger_after(
            ledger_after(ledger, second, second_number, second_color, second_hobbies),
            first,
            first_number,
            first_color,
            first_hobbies,
        ),
{
    let one = ledger_after(
        ledger_after(ledger, first, first_number, first_color, first_hobbies),
        second,
        second_number,
        second_color,
        second_hobbies,
    );
    let other = ledger_after(
        ledger_after(ledger, second, second_number, second_color, second_hobbies),
        first,
        first_number,
        first_color,
        first_hobbies,
    );
    assert(one.records =~= other.records);
}

/// A later call replaces the record in full: after two calls by one caller,
/// the second of which succeeds, the ledger holds the records it held before
/// both, with the caller's record set to what the second call was given.
/// Nothing of the first call is left.
pub proof fn law_replacement(
    ledger: LedgerView,
    first: SetFavorites,
    first_number: u64,
    first_color: Seq<char>,
    first_hobbies: Seq<Seq<char>>,
    second: SetFavorites,
    second_number: u64,
    second_color: Seq<char>,
    second_hobbies: Seq<Seq<char>>,
)
    requires
        first.user.key@ == second.user.key@,
        outcome(
            ledger_after(ledger, first, first_number, first_color, first_hobbies),
            second,
            second_color,
            second_hobbies,
        ) is Ok,
    ensures
        ({
            let replaced = FavoritesView {
                number: second_number,
                color: second_color,
                hobbies: second_hobbies,
            };
            let end = ledger_after(
                ledger_after(ledger, first, first_number, first_color, first_hobbies),
                second,
                second_number,
                second_color,
                second_hobbies,
            );
            &&& favorites_in(end, second.user.key@) == Some(replaced)
            &&& end.records == ledger.records.insert(second.favorites@, replaced)
            &&& end.creation_cost == ledger.creation_cost
        }),
{
    let replaced = FavoritesView {
        number: second_number,
        color: second_color,
        hobbies: second_hobbies,
    };
    let end = ledger_after(
        ledger_after(ledger, first, first_number, first_color, first_hobbies),
        second,
        second_number,
        second_color,
        second_hobbies,
    );
    assert(end.records =~= ledger.records.insert(second.favorites@, replaced));
}

} // verus!
