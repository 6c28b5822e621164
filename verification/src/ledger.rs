//! The delivery ledger: the identifiers of the messages already processed.

use vstd::prelude::*;
use crate::bytes::{copy_range, same_bytes};

verus! {

/// The set of message identifiers that have been delivered. It only grows.
#[derive(Debug)]
pub struct DeliveryLedger {
    ids: Vec<Vec<u8>>,
}

/// The identifiers among the first `n` of `ids`.
pub open spec fn delivered_among(ids: Seq<Vec<u8>>, n: int) -> Set<Seq<u8>> {
    Set::new(|id: Seq<u8>| exists|i: int| 0 <= i < n && i < ids.len() && ids[i]@ == id)
}

impl View for DeliveryLedger {
    type V = Set<Seq<u8>>;

    closed spec fn view(&self) -> Set<Seq<u8>> {
        self.entries().to_set()
    }
}

impl DeliveryLedger {
    /// The identifiers in the order in which they were recorded.
    spec fn entries(&self) -> Seq<Seq<u8>> {
        self.ids@.map_values(|id: Vec<u8>| id@)
    }

    /// No identifier is recorded twice.
    #[verifier::type_invariant]
    spec fn distinct(&self) -> bool {
        self.entries().no_duplicates()
    }

    /// A ledger with nothing delivered.
    pub fn new() -> (ledger: DeliveryLedger)
        ensures
            ledger@ == Set::<Seq<u8>>::empty(),
    {
        let ledger = DeliveryLedger { ids: Vec::new() };
        assert(ledger@ =~= Set::<Seq<u8>>::empty());
        ledger
    }

    /// The ledger that holds exactly the identifiers in `ids`.
    pub fn from_ids(ids: &Vec<Vec<u8>>) -> (ledger: DeliveryLedger)
        ensures
            ledger@ == delivered_among(ids@, ids@.len() as int),
    {
        let mut ledger = DeliveryLedger::new();
        let mut i: usize = 0;
        assert(ledger@ =~= delivered_among(ids@, 0));
        while i < ids.len()
            invariant
                i <= ids@.len(),
                ledger@ == delivered_among(ids@, i as int),
            decreases ids@.len() - i,
        {
            let id = copy_range(&ids[i], 0, ids[i].len());
            assert(id@ =~= ids@[i as int]@);
            ledger.record(id);
            assert(ledger@ =~= delivered_among(ids@, i + 1)) by {
                assert forall|x: Seq<u8>| delivered_among(ids@, i + 1).contains(x) implies ledger@.contains(
                    x,
                ) by {
                    let j = choose|j: int| 0 <= j < i + 1 && ids@[j]@ == x;
                    if j < i {
                        assert(delivered_among(ids@, i as int).contains(x));
                    }
                }
            }
            i += 1;
        }
        ledger
    }

    /// Whether `id` has been delivered.
    pub fn contains(&self, id: &Vec<u8>) -> (found: bool)
        ensures
            found == self@.contains(id@),
    {
        let mut i: usize = 0;
        while i < self.ids.len()
            invariant
                i <= self.ids@.len(),
                forall|j: int| 0 <= j < i ==> self.entries()[j] != id@,
            decreases self.ids@.len() - i,
        {
            if same_bytes(&self.ids[i], id) {
                assert(self.entries()[i as int] == id@);
                return true;
            }
            i += 1;
        }
        false
    }

    /// Records `id` as delivered unless it already is, in one step. Says
    /// whether the identifier was new.
    pub fn record(&mut self, id: Vec<u8>) -> (fresh: bool)
        ensures
            fresh == !old(self)@.contains(id@),
            final(self)@ == old(self)@.insert(id@),
    {
        if self.contains(&id) {
            assert(self@ =~= self@.insert(id@));
            return false;
        }
        proof {
            use_type_invariant(&*self);
        }
        let ghost before = self.entries();
        let mut ids: Vec<Vec<u8>> = Vec::new();
        core::mem::swap(&mut self.ids, &mut ids);
        ids.push(id);
        proof {
            let after = ids@.map_values(|id: Vec<u8>| id@);
            assert(after =~= before.push(id@));
            assert(after.no_duplicates());
            assert(after.to_set() =~= old(self)@.insert(id@)) by {
                assert forall|x: Seq<u8>| after.to_set().contains(x) <==> old(self)@.insert(
                    id@,
                ).contains(x) by {
                    if before.contains(x) {
                        let i = choose|i: int| 0 <= i < before.len() && before[i] == x;
                        assert(after[i] == x);
                    }
                    if x == id@ {
                        assert(after[before.len() as int] == x);
                    }
                }
            }
        }
        core::mem::swap(&mut self.ids, &mut ids);
        true
    }

    /// How many messages have been delivered.
    pub fn count(&self) -> (n: usize)
        ensures
            n == self@.len(),
    {
        proof {
            use_type_invariant(self);
            self.entries().unique_seq_to_set();
        }
        self.ids.len()
    }
}

} // verus!
