//! The life of a write, as a state machine: a proposed reservation is
//! validated for its authenticated owner, checked against the store for
//! conflicts, and committed, or it is rejected with a reason. The machine
//! decides; whoever drives it authenticates the caller, asks the store, and
//! reports back what came of it.

use vstd::prelude::*;
use crate::auth::AuthUser;
use crate::clock::{instant_of, parse, Instant};
use crate::errors::Rejection;
use crate::reservations::{validate, Reservation};
use crate::store::{owned_by, rows_of, StoreFailure};

verus! {

/// What `create` and `update` accept: the owner, the textual bounds, and
/// optionally whether the reservation is active.
#[derive(Debug)]
pub struct ReservationRequest {
    pub user_id: i64,
    pub start_datetime: String,
    pub end_datetime: String,
    pub is_active: Option<bool>,
}

/// Which write a request asks for.
#[derive(Clone, Copy, Debug, PartialEq, Eq, Structural)]
pub enum WriteKind {
    Create,
    Update { id: i64 },
}

/// Whether an update is checked against the row that it replaces.
#[derive(Clone, Copy, Debug, PartialEq, Eq, Structural)]
pub enum SelfConflict {
    /// The row under update takes part in the conflict check like any other,
    /// so an update that keeps part of its own interval is refused while the
    /// row is active.
    Counted,
    /// The row under update is left out of the conflict check.
    Excluded,
}

/// Where a write stands.
#[derive(Clone, Copy, Debug, PartialEq, Eq)]
pub enum State {
    /// The request was received and its bounds were parsed (`None` stands
    /// for a malformed bound); the caller's identity is awaited.
    Proposed {
        kind: WriteKind,
        owner: i64,
        start: Option<Instant>,
        end: Option<Instant>,
        requested_active: Option<bool>,
    },
    /// The structural check passed; the store's conflict answer is awaited.
    Validated { kind: WriteKind, candidate: Reservation },
    /// No conflict was found; the store's write is awaited.
    Checked { kind: WriteKind, candidate: Reservation },
    /// The store persisted the row.
    Committed { row: Reservation },
    /// The write was refused.
    Rejected { reason: Rejection },
}

/// What the driver is to do next.
#[derive(Clone, Copy, Debug, PartialEq, Eq)]
pub enum Action {
    /// Authenticate the caller.
    Authenticate,
    /// Does an active row of `user_id` intersect `[start, end)`, leaving out
    /// the row `exclude_id`?
    CheckConflict { user_id: i64, start: Instant, end: Instant, exclude_id: Option<i64> },
    /// Insert `row` and assign its identifier.
    Insert { row: Reservation },
    /// Update the row `(id, fields.user_id)` with the times, activity and
    /// `updated_at` of `fields`.
    Update { id: i64, fields: Reservation },
    /// Nothing: the state is final.
    Done,
}

/// What came of an action.
#[derive(Clone, Copy, Debug, PartialEq, Eq)]
pub enum Event {
    Authenticated { principal: Result<AuthUser, Rejection> },
    ConflictChecked { conflict: bool },
    Stored { row: Reservation },
    NoSuchRow,
    Failed,
}

/// Whether the stored reservation is to be active: always on creation; on
/// update unless the request says otherwise.
pub open spec fn active_flag(kind: WriteKind, requested: Option<bool>) -> bool {
    match kind {
        WriteKind::Create => true,
        WriteKind::Update { .. } => match requested {
            Some(flag) => flag,
            None => true,
        },
    }
}

/// The state a proposal reaches once the principal is known: rejected as
/// forbidden where the request names another owner, as an invalid range
/// where a bound is malformed or the start is not strictly before the end;
/// else validated.
pub open spec fn validation_of(
    principal: AuthUser,
    kind: WriteKind,
    owner: i64,
    start: Option<Instant>,
    end: Option<Instant>,
    requested_active: Option<bool>,
) -> State {
    if owner != principal.user_id {
        State::Rejected { reason: Rejection::Forbidden }
    } else {
        match (start, end) {
            (Some(s), Some(e)) => if s.before(e) {
                State::Validated {
                    kind,
                    candidate: Reservation::candidate_of(
                        owner,
                        s,
                        e,
                        active_flag(kind, requested_active),
                    ),
                }
            } else {
                State::Rejected { reason: Rejection::InvalidRange }
            },
            _ => State::Rejected { reason: Rejection::InvalidRange },
        }
    }
}

/// The row that a write hands to the store for a candidate at `now`.
pub open spec fn stamped(kind: WriteKind, candidate: Reservation, now: Instant) -> Reservation {
    match kind {
        WriteKind::Create => Reservation {
            created_at: Some(now),
            updated_at: Some(now),
            ..candidate
        },
        WriteKind::Update { .. } => Reservation { updated_at: Some(now), ..candidate },
    }
}

/// The identifier that the conflict check leaves out.
pub open spec fn excluded_id(kind: WriteKind, policy: SelfConflict) -> Option<i64> {
    match (kind, policy) {
        (WriteKind::Update { id }, SelfConflict::Excluded) => Some(id),
        _ => None,
    }
}

/// The reason for a conflict, a missing row and a failed write, by kind.
pub open spec fn conflict_reason(kind: WriteKind) -> Rejection {
    match kind {
        WriteKind::Create => Rejection::Conflict,
        WriteKind::Update { .. } => Rejection::UpdateConflict,
    }
}

pub open spec fn write_failure(kind: WriteKind) -> Rejection {
    match kind {
        WriteKind::Create => Rejection::CreateFailed,
        WriteKind::Update { .. } => Rejection::UpdateFailed,
    }
}

pub open spec fn missing_row(kind: WriteKind) -> Rejection {
    match kind {
        WriteKind::Create => Rejection::CreateFailed,
        WriteKind::Update { .. } => Rejection::ReservationNotFound,
    }
}

impl State {
    pub open spec fn is_final(self) -> bool {
        self is Committed || self is Rejected
    }

    /// How many actions a state is away from a final one, at most.
    pub open spec fn distance(self) -> nat {
        match self {
            State::Proposed { .. } => 3,
            State::Validated { .. } => 2,
            State::Checked { .. } => 1,
            _ => 0,
        }
    }

    /// What to do in this state, at the instant `now`.
    pub open spec fn action_of(self, policy: SelfConflict, now: Instant) -> Action {
        match self {
            State::Proposed { .. } => Action::Authenticate,
            State::Validated { kind, candidate } => Action::CheckConflict {
                user_id: candidate.user_id,
                start: candidate.start_datetime,
                end: candidate.end_datetime,
                exclude_id: excluded_id(kind, policy),
            },
            State::Checked { kind: WriteKind::Create, candidate } => Action::Insert {
                row: stamped(WriteKind::Create, candidate, now),
            },
            State::Checked { kind: WriteKind::Update { id }, candidate } => Action::Update {
                id,
                fields: stamped(WriteKind::Update { id }, candidate, now),
            },
            _ => Action::Done,
        }
    }

    /// The state after an event. An event that does not answer the action
    /// asked for counts as a failure of that step; a final state stays as it
    /// is.
    pub open spec fn after(self, event: Event) -> State {
        match self {
            State::Proposed { kind, owner, start, end, requested_active } => match event {
                Event::Authenticated { principal: Ok(p) } => validation_of(
                    p,
                    kind,
                    owner,
                    start,
                    end,
                    requested_active,
                ),
                Event::Authenticated { principal: Err(reason) } => State::Rejected { reason },
                _ => State::Rejected { reason: write_failure(kind) },
            },
            State::Validated { kind, candidate } => match event {
                Event::ConflictChecked { conflict } => if conflict {
                    State::Rejected { reason: conflict_reason(kind) }
                } else {
                    State::Checked { kind, candidate }
                },
                _ => State::Rejected { reason: Rejection::OverlapCheckFailed },
            },
            State::Checked { kind, candidate } => match event {
                Event::Stored { row } => State::Committed { row },
                Event::NoSuchRow => State::Rejected { reason: missing_row(kind) },
                _ => State::Rejected { reason: write_failure(kind) },
            },
            _ => self,
        }
    }

    /// The result of a final state.
    pub open spec fn outcome_of(self) -> Option<Result<Reservation, Rejection>> {
        match self {
            State::Committed { row } => Some(Ok(row)),
            State::Rejected { reason } => Some(Err(reason)),
            _ => None,
        }
    }

    pub fn next_action(&self, policy: SelfConflict, now: Instant) -> (r: Action)
        ensures
            r == self.action_of(policy, now),
    {
        match *self {
            State::Proposed { .. } => Action::Authenticate,
            State::Validated { kind, candidate } => {
                let exclude_id = match (kind, policy) {
                    (WriteKind::Update { id }, SelfConflict::Excluded) => Some(id),
                    _ => None,
                };
                Action::CheckConflict {
                    user_id: candidate.user_id,
                    start: candidate.start_datetime,
                    end: candidate.end_datetime,
                    exclude_id,
                }
            },
            State::Checked { kind: WriteKind::Create, candidate } => Action::Insert {
                row: Reservation { created_at: Some(now), updated_at: Some(now), ..candidate },
            },
            State::Checked { kind: WriteKind::Update { id }, candidate } => Action::Update {
                id,
                fields: Reservation { updated_at: Some(now), ..candidate },
            },
            _ => Action::Done,
        }
    }

    pub fn on_event(self, event: Event) -> (r: State)
        ensures
            r == self.after(event),
            r.distance() < self.distance() || (self.is_final() && r == self),
    {
        match self {
            State::Proposed { kind, owner, start, end, requested_active } => match event {
                Event::Authenticated { principal: Ok(p) } => validate_proposal(
                    &p,
                    kind,
                    owner,
                    start,
                    end,
                    requested_active,
                ),
                Event::Authenticated { principal: Err(reason) } => State::Rejected { reason },
                _ => {
                    let reason = match kind {
                        WriteKind::Create => Rejection::CreateFailed,
                        WriteKind::Update { .. } => Rejection::UpdateFailed,
                    };
                    State::Rejected { reason }
                },
            },
            State::Validated { kind, candidate } => match event {
                Event::ConflictChecked { conflict } => {
                    if conflict {
                        let reason = match kind {
                            WriteKind::Create => Rejection::Conflict,
                            WriteKind::Update { .. } => Rejection::UpdateConflict,
                        };
                        State::Rejected { reason }
                    } else {
                        State::Checked { kind, candidate }
                    }
                },
                _ => State::Rejected { reason: Rejection::OverlapCheckFailed },
            },
            State::Checked { kind, candidate } => match event {
                Event::Stored { row } => State::Committed { row },
                Event::NoSuchRow => {
                    let reason = match kind {
                        WriteKind::Create => Rejection::CreateFailed,
                        WriteKind::Update { .. } => Rejection::ReservationNotFound,
                    };
                    State::Rejected { reason }
                },
                _ => {
                    let reason = match kind {
                        WriteKind::Create => Rejection::CreateFailed,
                        WriteKind::Update { .. } => Rejection::UpdateFailed,
                    };
                    State::Rejected { reason }
                },
            },
            _ => self,
        }
    }

    pub fn outcome(&self) -> (r: Option<Result<Reservation, Rejection>>)
        ensures
            r == self.outcome_of(),
            r is Some <==> self.is_final(),
    {
        match *self {
            State::Committed { row } => Some(Ok(row)),
            State::Rejected { reason } => Some(Err(reason)),
            _ => None,
        }
    }
}

/// Validates a proposal for its principal: checks the owner against the
/// principal and that the start is strictly before the end.
fn validate_proposal(
    principal: &AuthUser,
    kind: WriteKind,
    owner: i64,
    start: Option<Instant>,
    end: Option<Instant>,
    requested_active: Option<bool>,
) -> (r: State)
    ensures
        r == validation_of(*principal, kind, owner, start, end, requested_active),
{
    if owner != principal.user_id {
        return State::Rejected { reason: Rejection::Forbidden };
    }
    match (start, end) {
        (Some(s), Some(e)) => {
            let is_active = match kind {
                WriteKind::Create => true,
                WriteKind::Update { .. } => match requested_active {
                    Some(flag) => flag,
                    None => true,
                },
            };
            let candidate = Reservation::candidate(owner, s, e, is_active);
            match validate(&candidate) {
                Ok(()) => State::Validated { kind, candidate },
                Err(reason) => State::Rejected { reason },
            }
        },
        _ => State::Rejected { reason: Rejection::InvalidRange },
    }
}

/// The proposal that a request makes.
pub open spec fn proposal_of(kind: WriteKind, request: ReservationRequest) -> State {
    State::Proposed {
        kind,
        owner: request.user_id,
        start: instant_of(request.start_datetime@),
        end: instant_of(request.end_datetime@),
        requested_active: request.is_active,
    }
}

/// Receives a request: parses its bounds and proposes the write.
pub fn propose(kind: WriteKind, request: &ReservationRequest) -> (r: State)
    ensures
        r == proposal_of(kind, *request),
{
    State::Proposed {
        kind,
        owner: request.user_id,
        start: parse(request.start_datetime.as_str()),
        end: parse(request.end_datetime.as_str()),
        requested_active: request.is_active,
    }
}

/// What a read of one row returns for the store's answer.
pub open spec fn read_outcome_of(
    principal: AuthUser,
    reply: Result<Option<Reservation>, StoreFailure>,
) -> Result<Reservation, Rejection> {
    match reply {
        Err(_) => Err(Rejection::FetchFailed),
        Ok(None) => Err(Rejection::ReservationNotFound),
        Ok(Some(row)) => if row.user_id == principal.user_id {
            Ok(row)
        } else {
            Err(Rejection::ReservationNotFound)
        },
    }
}

/// Decides a read of one row on the store's answer. A row of another owner
/// is reported as not found, whatever the store handed over.
pub fn read_outcome(principal: &AuthUser, reply: Result<Option<Reservation>, StoreFailure>) -> (r:
    Result<Reservation, Rejection>)
    ensures
        r == read_outcome_of(*principal, reply),
        r matches Ok(row) ==> row.user_id == principal.user_id,
{
    match reply {
        Err(_) => Err(Rejection::FetchFailed),
        Ok(None) => Err(Rejection::ReservationNotFound),
        Ok(Some(row)) => {
            if row.user_id == principal.user_id {
                Ok(row)
            } else {
                Err(Rejection::ReservationNotFound)
            }
        },
    }
}

/// Decides a listing on the store's answer: the rows of the principal, in
/// the store's order. Rows of other owners are dropped, whatever the store
/// handed over.
pub fn list_outcome(principal: &AuthUser, reply: Result<Vec<Reservation>, StoreFailure>) -> (r:
    Result<Vec<Reservation>, Rejection>)
    ensures
        match reply {
            Err(_) => r == Err::<Vec<Reservation>, Rejection>(Rejection::ListFailed),
            Ok(rows) => r matches Ok(own) && own@ == owned_by(rows@, principal.user_id),
        },
{
    let rows = match reply {
        Err(_) => {
            return Err(Rejection::ListFailed);
        },
        Ok(rows) => rows,
    };
    Ok(rows_of(&rows, principal.user_id))
}

/// Every write settles: each event brings the machine closer to a final
/// state, a proposal is final after three events, and a final state stays.
pub proof fn lemma_write_settles(state: State, first: Event, second: Event, third: Event)
    ensures
        state.after(first).distance() < state.distance() || state.is_final(),
        state.after(first).after(second).after(third).is_final(),
        state.is_final() ==> state.after(first) == state,
{
}

/// A write is committed only for an authenticated principal who owns the
/// proposal, with a valid range, after the store has answered that there is
/// no conflict and has then stored the row.
pub proof fn lemma_commit_needs_every_step(state: State, first: Event, second: Event, third: Event)
    requires
        state is Proposed,
        state.after(first).after(second).after(third) is Committed,
    ensures
        first matches Event::Authenticated { principal: Ok(p) } && p.user_id
            == state->Proposed_owner,
        state.after(first) matches State::Validated { candidate, .. } && candidate.valid()
            && candidate.user_id == state->Proposed_owner,
        second == (Event::ConflictChecked { conflict: false }),
        third is Stored,
{
}

/// Failures close the door: a failed authentication is final, and so is a
/// conflict.
pub proof fn lemma_rejections_are_final(state: State, event: Event, next: Event)
    requires
        state.after(event) is Rejected,
    ensures
        state.after(event).after(next) == state.after(event),
        state.after(event).action_of(SelfConflict::Counted, Instant { secs: 0, nanos: 0 })
            == Action::Done,
{
}

} // verus!
