//! An in-memory subscriptions table: the persistence contract with the
//! table's primary key on the identifier.
use vstd::prelude::*;

use crate::subscriber::{Subscriber, SubscriberRecord};

verus! {

/// Why a write to the store failed.
#[derive(Clone, Copy, Debug, PartialEq, Eq, Structural)]
pub enum StoreError {
    /// A record with the same identifier is already stored.
    DuplicateId,
    /// The store could not be reached, or failed the write.
    Backend,
}

/// Whether some record in `rows` carries the identifier `id`.
pub open spec fn has_id(rows: Seq<SubscriberRecord>, id: u128) -> bool {
    exists|i: int| 0 <= i < rows.len() && (#[trigger] rows[i]).id == id
}

/// No two records share an identifier.
pub open spec fn ids_unique(rows: Seq<SubscriberRecord>) -> bool {
    forall|i: int, j: int|
        0 <= i < rows.len() && 0 <= j < rows.len() && i != j ==> #[trigger] rows[i].id
            != #[trigger] rows[j].id
}

/// The subscriptions table, in the order the records were written.
pub struct SubscriberTable {
    rows: Vec<Subscriber>,
}

impl View for SubscriberTable {
    type V = Seq<SubscriberRecord>;

    closed spec fn view(&self) -> Seq<SubscriberRecord> {
        self.rows@.map_values(|s: Subscriber| s@)
    }
}

impl SubscriberTable {
    /// Every stored record has a unique identifier and both text fields.
    pub open spec fn wf(&self) -> bool {
        &&& ids_unique(self@)
        &&& forall|i: int| 0 <= i < self@.len() ==> (#[trigger] self@[i]).wf()
    }

    /// An empty table.
    pub fn new() -> (t: SubscriberTable)
        ensures
            t@ == Seq::<SubscriberRecord>::empty(),
            t.wf(),
    {
        let t = SubscriberTable { rows: Vec::new() };
        assert(t@ =~= Seq::<SubscriberRecord>::empty());
        t
    }

    /// The number of stored records.
    pub fn len(&self) -> (n: usize)
        ensures
            n == self@.len(),
    {
        self.rows.len()
    }

    /// The record at position `i`.
    pub fn record(&self, i: usize) -> (s: &Subscriber)
        requires
            i < self@.len(),
        ensures
            s@ == self@[i as int],
    {
        &self.rows[i]
    }

    /// Whether a record with the identifier is stored.
    pub fn contains_id(&self, id: u128) -> (r: bool)
        ensures
            r == has_id(self@, id),
    {
        let mut i: usize = 0;
        while i < self.rows.len()
            invariant
                i <= self@.len(),
                self@.len() == self.rows@.len(),
                forall|j: int| 0 <= j < i ==> (#[trigger] self@[j]).id != id,
            decreases self.rows@.len() - i,
        {
            if self.rows[i].id == id {
                assert(self@[i as int].id == id);
                return true;
            }
            i = i + 1;
        }
        false
    }

    /// Writes one record. A record whose identifier is already stored is
    /// refused, and the table is left as it was.
    pub fn insert(&mut self, s: Subscriber) -> (r: Result<(), StoreError>)
        requires
            old(self).wf(),
            s@.wf(),
        ensures
            final(self).wf(),
            r is Ok <==> !has_id(old(self)@, s.id),
            r is Ok ==> final(self)@ == old(self)@.push(s@),
            r is Err ==> r->Err_0 == StoreError::DuplicateId && final(self)@ == old(self)@,
    {
        if self.contains_id(s.id) {
            return Err(StoreError::DuplicateId);
        }
        let ghost before = self@;
        let ghost rec = s@;
        self.rows.push(s);
        assert(self@ =~= before.push(rec));
        Ok(())
    }
}

} // verus!
