//! A reservation store held in memory, with the contract the service asks of
//! any store: rows are found and listed by owner, identifiers are assigned
//! once, and no owner is ever double-booked. The store enforces the last by
//! itself: it refuses a write that would break it, whoever asks.

use vstd::prelude::*;
use crate::clock::Instant;
use crate::reservations::{
    conflict_in_except, has_conflict_except, lemma_conflict_reads_owner_and_bounds, Reservation,
};

verus! {

/// A store call that did not complete, or a write that the store refused.
#[derive(Clone, Copy, Debug, PartialEq, Eq, Structural)]
pub struct StoreFailure {}

/// Whether the store takes a row beside `rows`: it must be structurally
/// valid and, where it is active, conflict with none of them; `exclude`
/// names the row that it replaces, if any.
pub open spec fn admissible(row: Reservation, rows: Seq<Reservation>, exclude: Option<i64>)
    -> bool {
    row.valid() && (row.is_active ==> !conflict_in_except(row, rows, exclude))
}

/// Whether a row is the one with identifier `id` that belongs to `owner`.
pub open spec fn is_row(row: Reservation, id: i64, owner: i64) -> bool {
    row.id == Some(id) && row.user_id == owner
}

/// No two distinct rows carry the same identifier.
pub open spec fn distinct_ids(rows: Seq<Reservation>) -> bool {
    forall|i: int, j: int|
        #![trigger rows[i], rows[j]]
        0 <= i < rows.len() && 0 <= j < rows.len() && i != j ==> rows[i].id != rows[j].id
}

/// No owner has two active reservations whose intervals intersect.
pub open spec fn no_double_booking(rows: Seq<Reservation>) -> bool {
    forall|i: int, j: int|
        #![trigger rows[i], rows[j]]
        0 <= i < rows.len() && 0 <= j < rows.len() && i != j && rows[i].user_id
            == rows[j].user_id && rows[i].is_active && rows[j].is_active ==> !rows[i].overlaps(
            rows[j],
        )
}

/// `found` is what a lookup of `(id, owner)` in `rows` may return: a row of
/// `rows` with that identifier and owner, or nothing where there is none.
pub open spec fn is_lookup_result(
    rows: Seq<Reservation>,
    id: i64,
    owner: i64,
    found: Option<Reservation>,
) -> bool {
    match found {
        Some(row) => rows.contains(row) && is_row(row, id, owner),
        None => forall|k: int| 0 <= k < rows.len() ==> !is_row(#[trigger] rows[k], id, owner),
    }
}

/// The rows of `owner`, in the order of `rows`.
pub open spec fn owned_by(rows: Seq<Reservation>, owner: i64) -> Seq<Reservation> {
    rows.filter(|r: Reservation| r.user_id == owner)
}

/// The row that an update of `old_row` with the fields of `fields` leaves:
/// times, activity and `updated_at` are taken over; identifier, owner and
/// `created_at` stay.
pub open spec fn updated_row(old_row: Reservation, fields: Reservation) -> Reservation {
    Reservation {
        id: old_row.id,
        user_id: old_row.user_id,
        start_datetime: fields.start_datetime,
        end_datetime: fields.end_datetime,
        is_active: fields.is_active,
        created_at: old_row.created_at,
        updated_at: fields.updated_at,
    }
}

/// The reservations that have been committed, and the next identifier.
pub struct ReservationStore {
    rows: Vec<Reservation>,
    next_id: i64,
}

impl View for ReservationStore {
    type V = Seq<Reservation>;

    closed spec fn view(&self) -> Seq<Reservation> {
        self.rows@
    }
}

impl ReservationStore {
    /// The identifier that the next insertion assigns.
    pub closed spec fn next_id(&self) -> int {
        self.next_id as int
    }

    /// The invariant of a store: every row has an identifier below the next
    /// one, identifiers are distinct, every row is structurally valid, and
    /// no owner is double-booked.
    pub open spec fn wf(&self) -> bool {
        &&& 1 <= self.next_id() <= i64::MAX
        &&& forall|i: int|
            0 <= i < self@.len() ==> ((#[trigger] self@[i]).id matches Some(k) && 1 <= k
                < self.next_id())
        &&& forall|i: int| 0 <= i < self@.len() ==> (#[trigger] self@[i]).valid()
        &&& distinct_ids(self@)
        &&& no_double_booking(self@)
    }

    /// An empty store; identifiers start at 1.
    pub fn new() -> (r: ReservationStore)
        ensures
            r.wf(),
            r@ == Seq::<Reservation>::empty(),
            r.next_id() == 1,
    {
        ReservationStore { rows: Vec::new(), next_id: 1 }
    }

    pub fn len(&self) -> (r: usize)
        ensures
            r == self@.len(),
    {
        self.rows.len()
    }

    /// Whether a reservation of `owner` over `[start, end)` would conflict
    /// with an active row, leaving out the row `exclude`, if given.
    pub fn exists_conflict(&self, owner: i64, start: Instant, end: Instant, exclude: Option<i64>)
        -> (r: bool)
        ensures
            r == conflict_in_except(
                Reservation::candidate_of(owner, start, end, true),
                self@,
                exclude,
            ),
    {
        let candidate = Reservation::candidate(owner, start, end, true);
        has_conflict_except(&candidate, &self.rows, exclude)
    }

    /// The row `(id, owner)`, if there is one.
    pub fn find(&self, id: i64, owner: i64) -> (r: Option<Reservation>)
        ensures
            is_lookup_result(self@, id, owner, r),
    {
        match self.position(id, owner) {
            Some(k) => Some(self.rows[k]),
            None => None,
        }
    }

    /// All rows of `owner`, in the order in which they were inserted.
    pub fn list(&self, owner: i64) -> (r: Vec<Reservation>)
        ensures
            r@ == owned_by(self@, owner),
    {
        rows_of(&self.rows, owner)
    }

    /// Inserts a row and assigns it the next identifier. Fails, and changes
    /// nothing, where the row is not admissible or the identifiers are used
    /// up.
    pub fn insert(&mut self, row: Reservation) -> (r: Result<Reservation, StoreFailure>)
        requires
            old(self).wf(),
        ensures
            final(self).wf(),
            r is Ok <==> admissible(row, old(self)@, None) && old(self).next_id() < i64::MAX,
            match r {
                Ok(stored) => {
                    &&& stored == (Reservation { id: Some(old(self).next_id() as i64), ..row })
                    &&& final(self)@ == old(self)@.push(stored)
                    &&& final(self).next_id() == old(self).next_id() + 1
                },
                Err(_) => {
                    &&& final(self)@ == old(self)@
                    &&& final(self).next_id() == old(self).next_id()
                },
            },
    {
        if self.next_id == i64::MAX || !row.is_valid() {
            return Err(StoreFailure {});
        }
        if row.is_active && has_conflict_except(&row, &self.rows, None) {
            return Err(StoreFailure {});
        }
        let stored = Reservation { id: Some(self.next_id), ..row };
        proof {
            lemma_conflict_reads_owner_and_bounds(stored, row, self.rows@, None);
            lemma_push_keeps_single_booking(self.rows@, stored);
        }
        self.rows.push(stored);
        self.next_id = self.next_id + 1;
        Ok(stored)
    }

    /// Replaces times, activity and `updated_at` of the row `(id,
    /// fields.user_id)` by those of `fields`. Gives `Ok(None)`, and changes
    /// nothing, where there is no such row; fails, and changes nothing,
    /// where the new row would not be admissible in place of the old.
    pub fn update(&mut self, id: i64, fields: Reservation) -> (r: Result<
        Option<Reservation>,
        StoreFailure,
    >)
        requires
            old(self).wf(),
        ensures
            final(self).wf(),
            final(self).next_id() == old(self).next_id(),
            match r {
                Ok(Some(stored)) => admissible(fields, old(self)@, Some(id)) && exists|k: int|
                    {
                        &&& 0 <= k < old(self)@.len()
                        &&& is_row(#[trigger] old(self)@[k], id, fields.user_id)
                        &&& stored == updated_row(old(self)@[k], fields)
                        &&& final(self)@ == old(self)@.update(k, stored)
                    },
                Ok(None) => {
                    &&& final(self)@ == old(self)@
                    &&& is_lookup_result(old(self)@, id, fields.user_id, None)
                },
                Err(_) => {
                    &&& final(self)@ == old(self)@
                    &&& !admissible(fields, old(self)@, Some(id))
                    &&& !is_lookup_result(old(self)@, id, fields.user_id, None)
                },
            },
    {
        let k = match self.position(id, fields.user_id) {
            Some(k) => k,
            None => {
                return Ok(None);
            },
        };
        if !fields.is_valid() {
            return Err(StoreFailure {});
        }
        if fields.is_active && has_conflict_except(&fields, &self.rows, Some(id)) {
            return Err(StoreFailure {});
        }
        let previous = self.rows[k];
        let stored = Reservation {
            id: previous.id,
            user_id: previous.user_id,
            start_datetime: fields.start_datetime,
            end_datetime: fields.end_datetime,
            is_active: fields.is_active,
            created_at: previous.created_at,
            updated_at: fields.updated_at,
        };
        proof {
            lemma_conflict_reads_owner_and_bounds(stored, fields, self.rows@, Some(id));
            lemma_replace_keeps_single_booking(self.rows@, k as int, stored);
        }
        self.rows.set(k, stored);
        Ok(Some(stored))
    }

    /// The index of the row `(id, owner)`, if there is one.
    fn position(&self, id: i64, owner: i64) -> (r: Option<usize>)
        ensures
            match r {
                Some(k) => k < self@.len() && is_row(self@[k as int], id, owner),
                None => is_lookup_result(self@, id, owner, None),
            },
    {
        let mut i: usize = 0;
        while i < self.rows.len()
            invariant
                i <= self.rows.len(),
                forall|k: int| 0 <= k < i ==> !is_row(#[trigger] self.rows@[k], id, owner),
            decreases self.rows.len() - i,
        {
            let row = &self.rows[i];
            let same_id = match row.id {
                Some(x) => x == id,
                None => false,
            };
            if same_id && row.user_id == owner {
                return Some(i);
            }
            i += 1;
        }
        None
    }
}

/// The rows of `owner` among `rows`, in their order.
pub fn rows_of(rows: &Vec<Reservation>, owner: i64) -> (r: Vec<Reservation>)
    ensures
        r@ == owned_by(rows@, owner),
{
    let mut own: Vec<Reservation> = Vec::new();
    let ghost keep = |r: Reservation| r.user_id == owner;
    proof {
        reveal(Seq::filter);
        assert(rows@.take(0) =~= Seq::<Reservation>::empty());
    }
    let mut i: usize = 0;
    while i < rows.len()
        invariant
            i <= rows.len(),
            keep == (|r: Reservation| r.user_id == owner),
            own@ == rows@.take(i as int).filter(keep),
        decreases rows.len() - i,
    {
        let row = rows[i];
        proof {
            reveal(Seq::filter);
            assert(rows@.take(i + 1).drop_last() =~= rows@.take(i as int));
            assert(rows@.take(i + 1).last() == row);
        }
        if row.user_id == owner {
            own.push(row);
        }
        i += 1;
    }
    proof {
        assert(rows@.take(i as int) =~= rows@);
    }
    own
}

/// Appending a row that, where it is active, conflicts with none of `rows`
/// leaves no owner double-booked.
pub proof fn lemma_push_keeps_single_booking(rows: Seq<Reservation>, row: Reservation)
    requires
        no_double_booking(rows),
        row.is_active ==> !conflict_in_except(row, rows, None),
    ensures
        no_double_booking(rows.push(row)),
{
    let after = rows.push(row);
    let n = rows.len() as int;
    assert forall|i: int, j: int|
        #![trigger after[i], after[j]]
        0 <= i < after.len() && 0 <= j < after.len() && i != j && after[i].user_id
            == after[j].user_id && after[i].is_active
            && after[j].is_active implies !after[i].overlaps(after[j]) by {
        if i < n && j < n {
            assert(after[i] == rows[i] && after[j] == rows[j]);
        } else if i == n {
            assert(!row.conflicts_with(rows[j]));
        } else {
            assert(!row.conflicts_with(rows[i]));
        }
    }
}

/// Replacing the row at `k` by one with the same identifier that, where it
/// is active, conflicts with none of the other rows leaves no owner
/// double-booked and the identifiers distinct.
pub proof fn lemma_replace_keeps_single_booking(rows: Seq<Reservation>, k: int, row: Reservation)
    requires
        no_double_booking(rows),
        distinct_ids(rows),
        0 <= k < rows.len(),
        row.id == rows[k].id,
        row.is_active ==> !conflict_in_except(row, rows, row.id),
    ensures
        no_double_booking(rows.update(k, row)),
        distinct_ids(rows.update(k, row)),
{
    let after = rows.update(k, row);
    assert forall|i: int, j: int|
        #![trigger after[i], after[j]]
        0 <= i < after.len() && 0 <= j < after.len() && i != j implies after[i].id
        != after[j].id by {
        assert(after[i].id == rows[i].id && after[j].id == rows[j].id);
    }
    assert forall|i: int, j: int|
        #![trigger after[i], after[j]]
        0 <= i < after.len() && 0 <= j < after.len() && i != j && after[i].user_id
            == after[j].user_id && after[i].is_active
            && after[j].is_active implies !after[i].overlaps(after[j]) by {
        if i != k && j != k {
            assert(after[i] == rows[i] && after[j] == rows[j]);
        } else if i == k {
            assert(rows[j].id != rows[k].id);
            assert(!row.conflicts_with(rows[j]));
        } else {
            assert(rows[i].id != rows[k].id);
            assert(!row.conflicts_with(rows[i]));
        }
    }
}

/// In a well-formed store a lookup has one answer: reading twice, with no
/// write in between, gives the same row.
pub proof fn lemma_lookup_is_determined(
    rows: Seq<Reservation>,
    id: i64,
    owner: i64,
    first: Option<Reservation>,
    second: Option<Reservation>,
)
    requires
        distinct_ids(rows),
        is_lookup_result(rows, id, owner, first),
        is_lookup_result(rows, id, owner, second),
    ensures
        first == second,
{
    match (first, second) {
        (Some(a), Some(b)) => {
            let i = choose|i: int| 0 <= i < rows.len() && rows[i] == a;
            let j = choose|j: int| 0 <= j < rows.len() && rows[j] == b;
            assert(rows[i].id == rows[j].id);
        },
        (Some(a), None) => {
            let i = choose|i: int| 0 <= i < rows.len() && rows[i] == a;
            assert(!is_row(rows[i], id, owner));
        },
        (None, Some(b)) => {
            let j = choose|j: int| 0 <= j < rows.len() && rows[j] == b;
            assert(!is_row(rows[j], id, owner));
        },
        (None, None) => {},
    }
}

/// A row is found only under its own owner: a lookup of its identifier
/// under another owner finds nothing.
pub proof fn lemma_lookup_is_owner_scoped(
    rows: Seq<Reservation>,
    row: Reservation,
    id: i64,
    other_owner: i64,
    found: Option<Reservation>,
)
    requires
        distinct_ids(rows),
        rows.contains(row),
        row.id == Some(id),
        row.user_id != other_owner,
        is_lookup_result(rows, id, other_owner, found),
    ensures
        found is None,
{
    if let Some(f) = found {
        let i = choose|i: int| 0 <= i < rows.len() && rows[i] == row;
        let j = choose|j: int| 0 <= j < rows.len() && rows[j] == f;
        assert(rows[i].id == rows[j].id);
    }
}

} // verus!
