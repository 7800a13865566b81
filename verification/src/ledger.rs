//! The record store: at most one record per address.

use crate::address::Address;
use crate::record::{
    encoded_len, fits, lemma_within_reservation, Favorites, FavoritesView, ACCOUNT_SPACE,
    ANCHOR_DISCRIMINATOR_SIZE,
};
use vstd::prelude::*;

verus! {

/// The mathematical value of a [`Ledger`]: what creating a record costs, and
/// the record held at each occupied address.
pub ghost struct LedgerView {
    pub creation_cost: u64,
    pub records: Map<Seq<u8>, FavoritesView>,
}

/// One occupied address with the record kept there.
struct Slot {
    address: Address,
    record: Favorites,
}

/// The records of all callers, each at its own address, together with the
/// price that the host charges for reserving the space of a new record.
///
/// The ledger is also what allocates: a record that does not exist yet is
/// created here, at the caller's expense, the first time it is written.
pub struct Ledger {
    creation_cost: u64,
    slots: Vec<Slot>,
}

impl View for Ledger {
    type V = LedgerView;

    closed spec fn view(&self) -> LedgerView {
        LedgerView {
            creation_cost: self.creation_cost,
            records: Map::new(
                |address: Seq<u8>| self.occupied(address),
                |address: Seq<u8>| self.slots[self.slot_of(address)].record@,
            ),
        }
    }
}

impl Ledger {
    /// The invariant that every ledger keeps: no address occurs in two
    /// slots, and every record kept is within the bounds of a record.
    pub closed spec fn wf(&self) -> bool {
        &&& forall|i: int, j: int|
            0 <= i < j < self.slots.len() ==> (#[trigger] self.slots[i]).address@
                != (#[trigger] self.slots[j]).address@
        &&& forall|i: int|
            0 <= i < self.slots.len() ==> fits(
                (#[trigger] self.slots[i]).record@.color,
                self.slots[i].record@.hobbies,
            )
    }

    spec fn occupied(&self, address: Seq<u8>) -> bool {
        exists|i: int| 0 <= i < self.slots.len() && (#[trigger] self.slots[i]).address@ == address
    }

    spec fn slot_of(&self, address: Seq<u8>) -> int {
        choose|i: int| 0 <= i < self.slots.len() && (#[trigger] self.slots[i]).address@ == address
    }

    /// No record outgrows its reservation: every record kept is within the
    /// bounds of a record, and takes at most the space reserved for it.
    pub proof fn lemma_records_within_reservation(self, address: Seq<u8>)
        requires
            self.wf(),
            self@.records.contains_key(address),
        ensures
            fits(self@.records[address].color, self@.records[address].hobbies),
            ANCHOR_DISCRIMINATOR_SIZE + encoded_len(self@.records[address]) <= ACCOUNT_SPACE,
    {
        let i = self.slot_of(address);
        assert(fits(self.slots[i].record@.color, self.slots[i].record@.hobbies));
        lemma_within_reservation(self@.records[address]);
    }

    /// An empty ledger on a host that charges `creation_cost` for a new
    /// record.
    pub fn new(creation_cost: u64) -> (ledger: Ledger)
        ensures
            ledger.wf(),
            ledger@ == (LedgerView { creation_cost, records: Map::empty() }),
    {
        let ledger = Ledger { creation_cost, slots: Vec::new() };
        assert(ledger@.records =~= Map::empty());
        ledger
    }

    /// What the host charges for reserving the space of a new record.
    pub fn creation_cost(&self) -> (cost: u64)
        ensures
            cost == self@.creation_cost,
    {
        self.creation_cost
    }

    /// Index of the slot that holds `address`, if any.
    fn position(&self, address: &Address) -> (found: Option<usize>)
        ensures
            match found {
                Some(i) => i < self.slots.len() && self.slots[i as int].address@ == address@,
                None => !self.occupied(address@),
            },
    {
        let mut i: usize = 0;
        while i < self.slots.len()
            invariant
                i <= self.slots.len(),
                forall|j: int| 0 <= j < i ==> (#[trigger] self.slots[j]).address@ != address@,
            decreases self.slots.len() - i,
        {
            if self.slots[i].address.same(address) {
                return Some(i);
            }
            i += 1;
        }
        None
    }

    /// Tells whether a record is kept at `address`.
    pub fn contains(&self, address: &Address) -> (present: bool)
        ensures
            present == self@.records.contains_key(address@),
    {
        self.position(address).is_some()
    }

    /// The record kept at `address`, if there is one.
    pub fn read(&self, address: &Address) -> (record: Option<&Favorites>)
        requires
            self.wf(),
        ensures
            match record {
                Some(found) => self@.records.contains_key(address@) && self@.records[address@]
                    == found@ && fits(found@.color, found@.hobbies),
                None => !self@.records.contains_key(address@),
            },
    {
        match self.position(address) {
            Some(i) => {
                assert(self.slot_of(address@) == i as int);
                Some(&self.slots[i].record)
            },
            None => None,
        }
    }

    /// Puts `record` at `address`, in place of the record kept there if there
    /// is one.
    pub(crate) fn store(&mut self, address: Address, record: Favorites)
        requires
            old(self).wf(),
            fits(record@.color, record@.hobbies),
        ensures
            final(self).wf(),
            final(self)@ == (LedgerView {
                creation_cost: old(self)@.creation_cost,
                records: old(self)@.records.insert(address@, record@),
            }),
    {
        let ghost before = *self;
        match self.position(&address) {
            Some(i) => {
                self.slots[i].record = record;
            },
            None => {
                self.slots.push(Slot { address, record });
            },
        }
        proof {
            let after = *self;
            assert forall|a: Seq<u8>| after.occupied(a) <==> (a == address@ || before.occupied(
                a,
            )) by {
                if after.occupied(a) {
                    let k = after.slot_of(a);
                    if a != address@ {
                        assert(before.slots[k].address@ == a);
                    }
                }
                if before.occupied(a) {
                    let k = before.slot_of(a);
                    assert(after.slots[k].address@ == a);
                }
                if a == address@ {
                    if before.occupied(a) {
                        let k = before.slot_of(a);
                        assert(after.slots[k].address@ == a);
                    } else {
                        assert(after.slots[before.slots.len() as int].address@ == a);
                    }
                }
            }
            assert forall|a: Seq<u8>| after.occupied(a) implies #[trigger] after@.records[a]
                == before@.records.insert(address@, record@)[a] by {
                let k = after.slot_of(a);
                if a != address@ {
                    assert(before.slots[k].address@ == a);
                    assert(before.slot_of(a) == k);
                }
            }
            assert(after@.records =~= before@.records.insert(address@, record@));
        }
    }
}

} // verus!
