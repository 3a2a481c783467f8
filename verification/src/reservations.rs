//! Reservations, their structural validity, and the owner-scoped conflict
//! test over half-open intervals `[start, end)`.

use vstd::prelude::*;
use crate::clock::Instant;
use crate::errors::Rejection;
use crate::routing::{table_view, Method, Operation, Route};

verus! {

/// A time-bounded booking that belongs to one owner.
///
/// `id`, `created_at` and `updated_at` are absent until the store has
/// assigned them.
#[derive(Clone, Copy, Debug, PartialEq, Eq)]
pub struct Reservation {
    pub id: Option<i64>,
    pub user_id: i64,
    pub start_datetime: Instant,
    pub end_datetime: Instant,
    pub is_active: bool,
    pub created_at: Option<Instant>,
    pub updated_at: Option<Instant>,
}

impl Reservation {
    /// Structural validity: the reservation starts strictly before it ends.
    pub open spec fn valid(self) -> bool {
        self.start_datetime.before(self.end_datetime)
    }

    /// The half-open intervals of the two reservations intersect.
    ///
    /// Touching end points do not count: `[a, b)` and `[b, c)` are disjoint.
    /// (A closed-interval test, which would count them, is deliberately not
    /// what this library implements.)
    pub open spec fn overlaps(self, other: Reservation) -> bool {
        self.start_datetime.before(other.end_datetime) && other.start_datetime.before(
            self.end_datetime,
        )
    }

    /// `self`, as a candidate, conflicts with the stored reservation
    /// `existing`: same owner, `existing` is active, and the intervals
    /// intersect.
    pub open spec fn conflicts_with(self, existing: Reservation) -> bool {
        self.user_id == existing.user_id && existing.is_active && self.overlaps(existing)
    }

    /// A candidate that the store has not seen yet.
    pub open spec fn candidate_of(user_id: i64, start: Instant, end: Instant, is_active: bool)
        -> Reservation {
        Reservation {
            id: None,
            user_id,
            start_datetime: start,
            end_datetime: end,
            is_active,
            created_at: None,
            updated_at: None,
        }
    }

    /// A candidate that the store has not seen yet.
    pub fn candidate(user_id: i64, start: Instant, end: Instant, is_active: bool) -> (r:
        Reservation)
        ensures
            r == Reservation::candidate_of(user_id, start, end, is_active),
    {
        Reservation {
            id: None,
            user_id,
            start_datetime: start,
            end_datetime: end,
            is_active,
            created_at: None,
            updated_at: None,
        }
    }

    /// Whether the reservation starts strictly before it ends.
    pub fn is_valid(&self) -> (r: bool)
        ensures
            r == self.valid(),
    {
        self.start_datetime.is_before(&self.end_datetime)
    }

    /// Whether the half-open intervals of `self` and `other` intersect,
    /// whoever owns them and whether or not they are active.
    pub fn intervals_intersect(&self, other: &Reservation) -> (r: bool)
        ensures
            r == self.overlaps(*other),
    {
        self.start_datetime.is_before(&other.end_datetime) && other.start_datetime.is_before(
            &self.end_datetime,
        )
    }

    /// Whether `self`, as a candidate, overlaps the stored reservation
    /// `other`: same owner, `other` is active, and the half-open intervals
    /// intersect.
    pub fn there_is_overlap(&self, other: Reservation) -> (r: bool)
        ensures
            r == self.conflicts_with(other),
    {
        self.user_id == other.user_id && other.is_active && self.intervals_intersect(&other)
    }
}

/// The candidate conflicts with one of `existing`, leaving out the row whose
/// identifier is `exclude`, if one is given.
pub open spec fn conflict_in_except(
    candidate: Reservation,
    existing: Seq<Reservation>,
    exclude: Option<i64>,
) -> bool {
    exists|i: int|
        0 <= i < existing.len() && #[trigger] candidate.conflicts_with(existing[i]) && !(
        exclude is Some && existing[i].id == exclude)
}

/// The candidate conflicts with one of `existing`.
pub open spec fn conflict_in(candidate: Reservation, existing: Seq<Reservation>) -> bool {
    conflict_in_except(candidate, existing, None)
}

/// Structural validation of a candidate.
pub fn validate(candidate: &Reservation) -> (r: Result<(), Rejection>)
    ensures
        r is Ok <==> candidate.valid(),
        r is Err <==> candidate.end_datetime.at_or_before(candidate.start_datetime),
        r is Err ==> r == Err::<(), Rejection>(Rejection::InvalidRange),
{
    if candidate.is_valid() {
        Ok(())
    } else {
        Err(Rejection::InvalidRange)
    }
}

/// Whether the candidate conflicts with any of `existing`, leaving out the
/// row whose identifier is `exclude`, if one is given. An update passes its
/// own identifier here when it is not to conflict with itself.
pub fn has_conflict_except(
    candidate: &Reservation,
    existing: &Vec<Reservation>,
    exclude: Option<i64>,
) -> (r: bool)
    ensures
        r == conflict_in_except(*candidate, existing@, exclude),
{
    let mut i: usize = 0;
    while i < existing.len()
        invariant
            i <= existing.len(),
            forall|k: int|
                0 <= k < i ==> !(#[trigger] candidate.conflicts_with(existing@[k]) && !(
                exclude is Some && existing@[k].id == exclude)),
        decreases existing.len() - i,
    {
        let row = &existing[i];
        let excluded = match (exclude, row.id) {
            (Some(x), Some(y)) => x == y,
            _ => false,
        };
        if !excluded && candidate.there_is_overlap(*row) {
            return true;
        }
        i += 1;
    }
    false
}

/// Whether the candidate conflicts with any of `existing`.
pub fn has_conflict(candidate: &Reservation, existing: &Vec<Reservation>) -> (r: bool)
    ensures
        r == conflict_in(*candidate, existing@),
{
    has_conflict_except(candidate, existing, None)
}

/// Whether a candidate conflicts depends on its owner and its bounds alone.
pub proof fn lemma_conflict_reads_owner_and_bounds(
    a: Reservation,
    b: Reservation,
    rows: Seq<Reservation>,
    exclude: Option<i64>,
)
    requires
        a.user_id == b.user_id,
        a.start_datetime == b.start_datetime,
        a.end_datetime == b.end_datetime,
    ensures
        conflict_in_except(a, rows, exclude) == conflict_in_except(b, rows, exclude),
{
    if conflict_in_except(a, rows, exclude) {
        let i = choose|i: int|
            0 <= i < rows.len() && #[trigger] a.conflicts_with(rows[i]) && !(exclude is Some
                && rows[i].id == exclude);
        assert(b.conflicts_with(rows[i]));
    }
    if conflict_in_except(b, rows, exclude) {
        let i = choose|i: int|
            0 <= i < rows.len() && #[trigger] b.conflicts_with(rows[i]) && !(exclude is Some
                && rows[i].id == exclude);
        assert(a.conflicts_with(rows[i]));
    }
}

/// Leaving a row out of the conflict check can only remove conflicts.
pub proof fn lemma_exclusion_only_removes_conflicts(
    candidate: Reservation,
    rows: Seq<Reservation>,
    id: i64,
)
    ensures
        conflict_in_except(candidate, rows, Some(id)) ==> conflict_in_except(candidate, rows, None),
{
    if conflict_in_except(candidate, rows, Some(id)) {
        let i = choose|i: int|
            0 <= i < rows.len() && #[trigger] candidate.conflicts_with(rows[i]) && rows[i].id
                != Some(id);
        assert(candidate.conflicts_with(rows[i]));
    }
}

/// Between two active reservations of one owner, conflict is symmetric.
pub proof fn lemma_conflict_is_symmetric(a: Reservation, b: Reservation)
    requires
        a.user_id == b.user_id,
        a.is_active,
        b.is_active,
    ensures
        a.conflicts_with(b) == b.conflicts_with(a),
        conflict_in(a, seq![b]) == conflict_in(b, seq![a]),
{
    let sa = seq![a];
    let sb = seq![b];
    assert(sa[0] == a);
    assert(sb[0] == b);
    if a.conflicts_with(b) {
        assert(a.conflicts_with(sb[0]));
        assert(b.conflicts_with(sa[0]));
    }
}

/// Reservations of different owners never conflict, whatever their times.
pub proof fn lemma_owners_are_independent(candidate: Reservation, existing: Seq<Reservation>)
    requires
        forall|i: int| 0 <= i < existing.len() ==> (#[trigger] existing[i]).user_id
            != candidate.user_id,
    ensures
        !conflict_in(candidate, existing),
{
}

/// Only active reservations take part: a candidate never conflicts with
/// rows that are all inactive.
pub proof fn lemma_inactive_rows_never_conflict(candidate: Reservation, existing: Seq<Reservation>)
    requires
        forall|i: int| 0 <= i < existing.len() ==> !(#[trigger] existing[i]).is_active,
    ensures
        !conflict_in(candidate, existing),
{
}

/// Back-to-back reservations do not overlap: where one ends at the instant
/// the other starts, the half-open intervals are disjoint.
pub proof fn lemma_touching_intervals_are_disjoint(a: Reservation, b: Reservation)
    requires
        a.end_datetime == b.start_datetime,
    ensures
        !a.overlaps(b),
        !b.overlaps(a),
{
}

/// A valid reservation that lies within another overlaps it.
pub proof fn lemma_contained_interval_overlaps(inner: Reservation, outer: Reservation)
    requires
        inner.valid(),
        outer.start_datetime.at_or_before(inner.start_datetime),
        inner.end_datetime.at_or_before(outer.end_datetime),
    ensures
        inner.overlaps(outer),
        outer.overlaps(inner),
{
}

/// The route table of the reservation operations.
pub open spec fn reservation_routes() -> Seq<(Method, Seq<char>, Operation)> {
    seq![
        (Method::Get, "/reservations/<id>"@, Operation::GetReservation),
        (Method::Post, "/reservations"@, Operation::CreateReservation),
        (Method::Put, "/reservations/<id>"@, Operation::UpdateReservation),
        (Method::Get, "/reservations"@, Operation::ListReservations),
    ]
}

/// The routes of the reservation operations. All of them are guarded.
pub fn routes() -> (r: Vec<Route>)
    ensures
        table_view(r@) == reservation_routes(),
        forall|i: int| 0 <= i < r@.len() ==> (#[trigger] r@[i]).operation.guarded(),
{
    let mut table: Vec<Route> = Vec::new();
    table.push(
        Route {
            method: Method::Get,
            path: "/reservations/<id>",
            operation: Operation::GetReservation,
        },
    );
    table.push(
        Route {
            method: Method::Post,
            path: "/reservations",
            operation: Operation::CreateReservation,
        },
    );
    table.push(
        Route {
            method: Method::Put,
            path: "/reservations/<id>",
            operation: Operation::UpdateReservation,
        },
    );
    table.push(
        Route {
            method: Method::Get,
            path: "/reservations",
            operation: Operation::ListReservations,
        },
    );
    assert(table_view(table@) =~= reservation_routes());
    table
}

} // verus!
