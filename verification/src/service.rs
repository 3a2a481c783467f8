//! The reservation service over the in-memory store: each operation
//! authenticates the bearer token, then reads or writes strictly within the
//! principal's own reservations.

use vstd::prelude::*;
use crate::auth::{authenticate, authenticate_spec, AuthConfig, AuthUser};
use crate::clock::{instant_of, Instant};
use crate::errors::{ErrorKind, Rejection};
use crate::reservations::{
    conflict_in, conflict_in_except, lemma_conflict_reads_owner_and_bounds,
    lemma_exclusion_only_removes_conflicts, Reservation,
};
use crate::store::{
    distinct_ids, is_lookup_result, is_row, lemma_lookup_is_determined,
    lemma_lookup_is_owner_scoped, lemma_push_keeps_single_booking,
    lemma_replace_keeps_single_booking, no_double_booking, owned_by, updated_row,
    ReservationStore,
};
use crate::workflow::{
    excluded_id, propose, read_outcome, stamped, validation_of, Action, Event,
    ReservationRequest, SelfConflict, State, WriteKind,
};

verus! {

/// The state that validating `request` for `principal` reaches.
pub open spec fn validated_of(principal: AuthUser, kind: WriteKind, request: ReservationRequest)
    -> State {
    validation_of(
        principal,
        kind,
        request.user_id,
        instant_of(request.start_datetime@),
        instant_of(request.end_datetime@),
        request.is_active,
    )
}

/// What `create_reservation` returns, and the rows it leaves, for the
/// outcome `principal` of authenticating the caller.
///
/// Refused, with the rows unchanged: where authentication failed; as
/// forbidden where the request names another owner; as an invalid range
/// where a bound is malformed or the start is not strictly before the end;
/// as a conflict where an active reservation of the owner intersects the
/// interval; as a failed write where the identifiers are used up. Else the
/// row is appended, active, stamped with `now` and given the next
/// identifier.
pub open spec fn create_outcome(
    rows: Seq<Reservation>,
    next_id: int,
    principal: Result<AuthUser, Rejection>,
    request: ReservationRequest,
    now: Instant,
) -> (Result<Reservation, Rejection>, Seq<Reservation>) {
    match principal {
        Err(reason) => (Err(reason), rows),
        Ok(p) => match validated_of(p, WriteKind::Create, request) {
            State::Validated { kind, candidate } => if conflict_in(candidate, rows) {
                (Err(Rejection::Conflict), rows)
            } else if next_id >= i64::MAX {
                (Err(Rejection::CreateFailed), rows)
            } else {
                let row = Reservation { id: Some(next_id as i64), ..stamped(kind, candidate, now) };
                (Ok(row), rows.push(row))
            },
            State::Rejected { reason } => (Err(reason), rows),
            _ => (Err(Rejection::CreateFailed), rows),
        },
    }
}

/// `result` and `after` are what an update of the row `(id, owner)` of
/// `before` with `fields` may give: the row with times, activity and
/// `updated_at` replaced, in its old place; or not found, and no change,
/// where `owner` has no row `id`.
pub open spec fn is_update_result(
    before: Seq<Reservation>,
    after: Seq<Reservation>,
    id: i64,
    owner: i64,
    fields: Reservation,
    result: Result<Reservation, Rejection>,
) -> bool {
    match result {
        Ok(row) => exists|k: int|
            {
                &&& 0 <= k < before.len()
                &&& is_row(#[trigger] before[k], id, owner)
                &&& row == updated_row(before[k], fields)
                &&& after == before.update(k, row)
            },
        Err(reason) => {
            &&& reason == Rejection::ReservationNotFound
            &&& after == before
            &&& is_lookup_result(before, id, owner, None)
        },
    }
}

/// `result` and `after` are what `update_reservation` may give for the
/// outcome `principal` of authenticating the caller.
///
/// Refused, with the rows unchanged: as for a creation, with the conflict
/// check leaving out the row `id` where `policy` says so. Else as
/// `is_update_result` says.
pub open spec fn is_update_outcome(
    before: Seq<Reservation>,
    after: Seq<Reservation>,
    policy: SelfConflict,
    principal: Result<AuthUser, Rejection>,
    id: i64,
    request: ReservationRequest,
    now: Instant,
    result: Result<Reservation, Rejection>,
) -> bool {
    match principal {
        Err(reason) => result == Err::<Reservation, Rejection>(reason) && after == before,
        Ok(p) => match validated_of(p, WriteKind::Update { id }, request) {
            State::Validated { kind, candidate } => if conflict_in_except(
                candidate,
                before,
                excluded_id(kind, policy),
            ) {
                result == Err::<Reservation, Rejection>(Rejection::UpdateConflict) && after
                    == before
            } else {
                is_update_result(
                    before,
                    after,
                    id,
                    p.user_id,
                    stamped(kind, candidate, now),
                    result,
                )
            },
            State::Rejected { reason } => result == Err::<Reservation, Rejection>(reason) && after
                == before,
            _ => false,
        },
    }
}

/// Creates a reservation for the bearer of `token`.
pub fn create_reservation(
    store: &mut ReservationStore,
    config: &AuthConfig,
    token: &str,
    request: &ReservationRequest,
    now: Instant,
) -> (r: Result<Reservation, Rejection>)
    requires
        old(store).wf(),
    ensures
        final(store).wf(),
        r == create_outcome(
            old(store)@,
            old(store).next_id(),
            authenticate_spec(config.secret_view(), token@, now),
            *request,
            now,
        ).0,
        final(store)@ == create_outcome(
            old(store)@,
            old(store).next_id(),
            authenticate_spec(config.secret_view(), token@, now),
            *request,
            now,
        ).1,
        final(store).next_id() == old(store).next_id() + (if r is Ok {
            1int
        } else {
            0int
        }),
{
    let policy = SelfConflict::Counted;
    let proposal = propose(WriteKind::Create, request);
    let validated = proposal.on_event(
        Event::Authenticated { principal: authenticate(config, token, now) },
    );
    let checked = match validated.next_action(policy, now) {
        Action::CheckConflict { user_id, start, end, exclude_id } => {
            let conflict = store.exists_conflict(user_id, start, end, exclude_id);
            proof {
                lemma_conflict_reads_owner_and_bounds(
                    Reservation::candidate_of(user_id, start, end, true),
                    validated->Validated_candidate,
                    store@,
                    exclude_id,
                );
            }
            validated.on_event(Event::ConflictChecked { conflict })
        },
        _ => validated,
    };
    let settled = match checked.next_action(policy, now) {
        Action::Insert { row } => {
            proof {
                lemma_conflict_reads_owner_and_bounds(
                    row,
                    validated->Validated_candidate,
                    store@,
                    None,
                );
            }
            match store.insert(row) {
                Ok(stored) => checked.on_event(Event::Stored { row: stored }),
                Err(_) => checked.on_event(Event::Failed),
            }
        },
        _ => checked,
    };
    match settled {
        State::Committed { row } => Ok(row),
        State::Rejected { reason } => Err(reason),
        _ => Err(Rejection::CreateFailed),
    }
}

/// Updates the reservation `id` of the bearer of `token`. Identifier,
/// owner and `created_at` of the row stay as they are.
pub fn update_reservation(
    store: &mut ReservationStore,
    config: &AuthConfig,
    policy: SelfConflict,
    token: &str,
    id: i64,
    request: &ReservationRequest,
    now: Instant,
) -> (r: Result<Reservation, Rejection>)
    requires
        old(store).wf(),
    ensures
        final(store).wf(),
        final(store).next_id() == old(store).next_id(),
        is_update_outcome(
            old(store)@,
            final(store)@,
            policy,
            authenticate_spec(config.secret_view(), token@, now),
            id,
            *request,
            now,
            r,
        ),
{
    let proposal = propose(WriteKind::Update { id }, request);
    let validated = proposal.on_event(
        Event::Authenticated { principal: authenticate(config, token, now) },
    );
    let checked = match validated.next_action(policy, now) {
        Action::CheckConflict { user_id, start, end, exclude_id } => {
            let conflict = store.exists_conflict(user_id, start, end, exclude_id);
            proof {
                lemma_conflict_reads_owner_and_bounds(
                    Reservation::candidate_of(user_id, start, end, true),
                    validated->Validated_candidate,
                    store@,
                    exclude_id,
                );
            }
            validated.on_event(Event::ConflictChecked { conflict })
        },
        _ => validated,
    };
    let settled = match checked.next_action(policy, now) {
        Action::Update { id: target, fields } => {
            proof {
                lemma_conflict_reads_owner_and_bounds(
                    fields,
                    validated->Validated_candidate,
                    store@,
                    excluded_id(WriteKind::Update { id }, policy),
                );
                lemma_conflict_reads_owner_and_bounds(
                    fields,
                    validated->Validated_candidate,
                    store@,
                    Some(id),
                );
                lemma_exclusion_only_removes_conflicts(fields, store@, id);
            }
            match store.update(target, fields) {
                Ok(Some(stored)) => checked.on_event(Event::Stored { row: stored }),
                Ok(None) => checked.on_event(Event::NoSuchRow),
                Err(_) => checked.on_event(Event::Failed),
            }
        },
        _ => checked,
    };
    match settled {
        State::Committed { row } => Ok(row),
        State::Rejected { reason } => Err(reason),
        _ => Err(Rejection::UpdateFailed),
    }
}

/// What `get_reservation_by_id` may return for a principal: the
/// principal's row `id`, or not found where the principal has none.
pub open spec fn is_read_result(
    rows: Seq<Reservation>,
    id: i64,
    principal: AuthUser,
    result: Result<Reservation, Rejection>,
) -> bool {
    match result {
        Ok(row) => is_lookup_result(rows, id, principal.user_id, Some(row)),
        Err(e) => e == Rejection::ReservationNotFound && is_lookup_result(
            rows,
            id,
            principal.user_id,
            None,
        ),
    }
}

/// Fetches the reservation `id` of the bearer of `token`. A reservation of
/// another owner is not found.
pub fn get_reservation_by_id(
    store: &ReservationStore,
    config: &AuthConfig,
    token: &str,
    id: i64,
    now: Instant,
) -> (r: Result<Reservation, Rejection>)
    ensures
        match authenticate_spec(config.secret_view(), token@, now) {
            Err(e) => r == Err::<Reservation, Rejection>(e),
            Ok(p) => is_read_result(store@, id, p, r),
        },
{
    let principal = match authenticate(config, token, now) {
        Ok(p) => p,
        Err(e) => {
            return Err(e);
        },
    };
    read_outcome(&principal, Ok(store.find(id, principal.user_id)))
}

/// Lists the reservations of the bearer of `token`, and no others.
pub fn get_all_reservations(
    store: &ReservationStore,
    config: &AuthConfig,
    token: &str,
    now: Instant,
) -> (r: Result<Vec<Reservation>, Rejection>)
    ensures
        match authenticate_spec(config.secret_view(), token@, now) {
            Err(e) => r == Err::<Vec<Reservation>, Rejection>(e),
            Ok(p) => r matches Ok(rows) && rows@ == owned_by(store@, p.user_id),
        },
{
    let principal = match authenticate(config, token, now) {
        Ok(p) => p,
        Err(e) => {
            return Err(e);
        },
    };
    Ok(store.list(principal.user_id))
}

/// A reservation that is accepted is sound: it belongs to the authenticated
/// principal, starts strictly before it ends, is active, carries the
/// identifier and the stamps it was given, and conflicts with nothing that
/// was there. A creation that is refused changes nothing.
pub proof fn lemma_accepted_creation_is_sound(
    rows: Seq<Reservation>,
    next_id: int,
    principal: Result<AuthUser, Rejection>,
    request: ReservationRequest,
    now: Instant,
)
    ensures
        create_outcome(rows, next_id, principal, request, now).0 matches Ok(row) ==> {
            &&& principal matches Ok(p) && row.user_id == p.user_id
            &&& row.user_id == request.user_id
            &&& row.valid()
            &&& row.is_active
            &&& row.id == Some(next_id as i64)
            &&& row.created_at == Some(now) && row.updated_at == Some(now)
            &&& !conflict_in(row, rows)
            &&& create_outcome(rows, next_id, principal, request, now).1 == rows.push(row)
        },
        create_outcome(rows, next_id, principal, request, now).0 is Err ==> create_outcome(
            rows,
            next_id,
            principal,
            request,
            now,
        ).1 == rows,
{
    if let Ok(row) = create_outcome(rows, next_id, principal, request, now).0 {
        let p = principal->Ok_0;
        let candidate = validated_of(p, WriteKind::Create, request)->Validated_candidate;
        lemma_conflict_reads_owner_and_bounds(row, candidate, rows, None);
    }
}

/// No creation double-books an owner: where no owner has two intersecting
/// active reservations before, none has after.
pub proof fn lemma_creation_keeps_owners_single_booked(
    rows: Seq<Reservation>,
    next_id: int,
    principal: Result<AuthUser, Rejection>,
    request: ReservationRequest,
    now: Instant,
)
    requires
        no_double_booking(rows),
    ensures
        no_double_booking(create_outcome(rows, next_id, principal, request, now).1),
{
    if let Ok(row) = create_outcome(rows, next_id, principal, request, now).0 {
        lemma_accepted_creation_is_sound(rows, next_id, principal, request, now);
        lemma_push_keeps_single_booking(rows, row);
    }
}

/// No update double-books an owner, and none changes the identifier, the
/// owner or `created_at` of a row, or the number of rows.
pub proof fn lemma_update_keeps_owners_single_booked(
    before: Seq<Reservation>,
    after: Seq<Reservation>,
    policy: SelfConflict,
    principal: Result<AuthUser, Rejection>,
    id: i64,
    request: ReservationRequest,
    now: Instant,
    result: Result<Reservation, Rejection>,
)
    requires
        distinct_ids(before),
        no_double_booking(before),
        is_update_outcome(before, after, policy, principal, id, request, now, result),
    ensures
        no_double_booking(after),
        distinct_ids(after),
        after.len() == before.len(),
        forall|i: int|
            0 <= i < before.len() ==> (#[trigger] after[i]).id == before[i].id && after[i].user_id
                == before[i].user_id && after[i].created_at == before[i].created_at,
        result matches Ok(row) ==> row.valid() && row.id == Some(id) && (principal matches Ok(p)
            && row.user_id == p.user_id) && row.updated_at == Some(now),
{
    if let Ok(row) = result {
        let p = principal->Ok_0;
        let kind = WriteKind::Update { id };
        let candidate = validated_of(p, kind, request)->Validated_candidate;
        let fields = stamped(kind, candidate, now);
        let k = choose|k: int|
            {
                &&& 0 <= k < before.len()
                &&& is_row(#[trigger] before[k], id, p.user_id)
                &&& row == updated_row(before[k], fields)
                &&& after == before.update(k, row)
            };
        lemma_conflict_reads_owner_and_bounds(row, candidate, before, excluded_id(kind, policy));
        lemma_conflict_reads_owner_and_bounds(row, candidate, before, Some(id));
        lemma_exclusion_only_removes_conflicts(row, before, id);
        lemma_replace_keeps_single_booking(before, k, row);
    }
}

/// Reading the same reservation twice, with no write in between, gives the
/// same result.
pub proof fn lemma_read_is_idempotent(
    rows: Seq<Reservation>,
    id: i64,
    principal: AuthUser,
    first: Result<Reservation, Rejection>,
    second: Result<Reservation, Rejection>,
)
    requires
        distinct_ids(rows),
        is_read_result(rows, id, principal, first),
        is_read_result(rows, id, principal, second),
    ensures
        first == second,
{
    let a = match first {
        Ok(row) => Some(row),
        Err(_) => None,
    };
    let b = match second {
        Ok(row) => Some(row),
        Err(_) => None,
    };
    lemma_lookup_is_determined(rows, id, principal.user_id, a, b);
}

/// A principal never sees another owner's reservation: reading the
/// identifier of a row that belongs to someone else reports it as not
/// found.
pub proof fn lemma_read_hides_other_owners(
    rows: Seq<Reservation>,
    row: Reservation,
    id: i64,
    principal: AuthUser,
    result: Result<Reservation, Rejection>,
)
    requires
        distinct_ids(rows),
        rows.contains(row),
        row.id == Some(id),
        row.user_id != principal.user_id,
        is_read_result(rows, id, principal, result),
    ensures
        result == Err::<Reservation, Rejection>(Rejection::ReservationNotFound),
        Rejection::ReservationNotFound.kind_of() == ErrorKind::NotFound,
{
    let found = match result {
        Ok(r) => Some(r),
        Err(_) => None,
    };
    lemma_lookup_is_owner_scoped(rows, row, id, principal.user_id, found);
}

/// Every row that a listing returns belongs to the principal.
pub proof fn lemma_listing_is_owner_scoped(rows: Seq<Reservation>, owner: i64, i: int)
    requires
        0 <= i < owned_by(rows, owner).len(),
    ensures
        owned_by(rows, owner)[i].user_id == owner,
        rows.contains(owned_by(rows, owner)[i]),
{
    let keep = |r: Reservation| r.user_id == owner;
    rows.lemma_filter_pred(keep, i);
    rows.lemma_filter_contains_rev(keep, owned_by(rows, owner)[i]);
}

} // verus!
