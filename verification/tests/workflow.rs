use reservation_core::auth::AuthUser;
use reservation_core::clock::Instant;
use reservation_core::errors::Rejection;
use reservation_core::reservations::Reservation;
use reservation_core::store::StoreFailure;
use reservation_core::workflow::{
    list_outcome, propose, read_outcome, Action, Event, ReservationRequest, SelfConflict, State,
    WriteKind,
};

fn request(owner: i64, start: &str, end: &str, active: Option<bool>) -> ReservationRequest {
    ReservationRequest {
        user_id: owner,
        start_datetime: start.to_string(),
        end_datetime: end.to_string(),
        is_active: active,
    }
}

fn ten_to_eleven(owner: i64, active: bool) -> Reservation {
    Reservation {
        id: None,
        user_id: owner,
        start_datetime: Instant { secs: 1769594400, nanos: 0 },
        end_datetime: Instant { secs: 1769598000, nanos: 0 },
        is_active: active,
        created_at: None,
        updated_at: None,
    }
}

const ALICE: AuthUser = AuthUser { user_id: 1 };

fn validated(principal: &AuthUser, kind: WriteKind, request: &ReservationRequest) -> State {
    propose(kind, request).on_event(Event::Authenticated { principal: Ok(*principal) })
}

fn validated_bounds(kind: WriteKind, start: Option<Instant>, end: Option<Instant>) -> State {
    State::Proposed { kind, owner: 1, start, end, requested_active: None }
        .on_event(Event::Authenticated { principal: Ok(ALICE) })
}
const NOW: Instant = Instant { secs: 1769500000, nanos: 7 };

#[test]
fn a_sound_proposal_is_validated() {
    let r = request(1, "2026-01-28T10:00:00Z", "2026-01-28T11:00:00Z", None);
    assert_eq!(
        validated(&ALICE, WriteKind::Create, &r),
        State::Validated { kind: WriteKind::Create, candidate: ten_to_eleven(1, true) }
    );
}

#[test]
fn a_proposal_for_another_owner_is_forbidden() {
    let r = request(2, "2026-01-28T10:00:00Z", "2026-01-28T11:00:00Z", None);
    assert_eq!(
        validated(&ALICE, WriteKind::Create, &r),
        State::Rejected { reason: Rejection::Forbidden }
    );
    assert_eq!(
        validated(&ALICE, WriteKind::Update { id: 3 }, &r),
        State::Rejected { reason: Rejection::Forbidden }
    );
}

#[test]
fn ownership_is_checked_before_the_range() {
    let r = request(2, "2026-01-28T11:00:00Z", "2026-01-28T10:00:00Z", None);
    assert_eq!(
        validated(&ALICE, WriteKind::Create, &r),
        State::Rejected { reason: Rejection::Forbidden }
    );
    let r = request(2, "never", "2026-01-28T10:00:00Z", None);
    assert_eq!(
        validated(&ALICE, WriteKind::Create, &r),
        State::Rejected { reason: Rejection::Forbidden }
    );
}

#[test]
fn a_proposal_with_a_bad_range_is_rejected() {
    let invalid = State::Rejected { reason: Rejection::InvalidRange };
    let r = request(1, "2026-01-28T10:00:00Z", "2026-01-28T10:00:00Z", None);
    assert_eq!(validated(&ALICE, WriteKind::Create, &r), invalid);
    let r = request(1, "2026-01-28T11:00:00Z", "2026-01-28T10:00:00Z", None);
    assert_eq!(validated(&ALICE, WriteKind::Create, &r), invalid);
    let r = request(1, "10:00", "11:00", None);
    assert_eq!(validated(&ALICE, WriteKind::Create, &r), invalid);
    let r = request(1, "2026-01-28T10:00:00Z", "", None);
    assert_eq!(validated(&ALICE, WriteKind::Update { id: 1 }, &r), invalid);
}

#[test]
fn a_missing_bound_is_an_invalid_range() {
    let s = Some(Instant::new(1, 0));
    let e = Some(Instant::new(2, 0));
    let invalid = State::Rejected { reason: Rejection::InvalidRange };
    assert_eq!(validated_bounds(WriteKind::Create, None, e), invalid);
    assert_eq!(validated_bounds(WriteKind::Create, s, None), invalid);
    assert_eq!(validated_bounds(WriteKind::Create, None, None), invalid);
    assert_eq!(validated_bounds(WriteKind::Create, e, s), invalid);
    assert_eq!(validated_bounds(WriteKind::Create, s, s), invalid);
    assert_eq!(
        validated_bounds(WriteKind::Create, s, e),
        State::Validated {
            kind: WriteKind::Create,
            candidate: Reservation::candidate(1, Instant::new(1, 0), Instant::new(2, 0), true),
        }
    );
}

#[test]
fn a_request_is_proposed_with_its_bounds_parsed() {
    let r = request(1, "2026-01-28T10:00:00Z", "eleven", Some(false));
    let s = propose(WriteKind::Update { id: 6 }, &r);
    assert_eq!(
        s,
        State::Proposed {
            kind: WriteKind::Update { id: 6 },
            owner: 1,
            start: Some(Instant { secs: 1769594400, nanos: 0 }),
            end: None,
            requested_active: Some(false),
        }
    );
    assert_eq!(s.next_action(SelfConflict::Counted, NOW), Action::Authenticate);
    assert_eq!(s.outcome(), None);
}

#[test]
fn a_failed_authentication_rejects_the_proposal() {
    let r = request(1, "2026-01-28T10:00:00Z", "2026-01-28T11:00:00Z", None);
    for reason in [Rejection::MissingToken, Rejection::InvalidToken, Rejection::SecretNotConfigured] {
        let s = propose(WriteKind::Create, &r).on_event(Event::Authenticated { principal: Err(reason) });
        assert_eq!(s, State::Rejected { reason });
    }
}

#[test]
fn a_proposal_takes_no_answer_of_the_store() {
    let r = request(1, "2026-01-28T10:00:00Z", "2026-01-28T11:00:00Z", None);
    let create = propose(WriteKind::Create, &r);
    let update = propose(WriteKind::Update { id: 1 }, &r);
    for event in [
        Event::ConflictChecked { conflict: false },
        Event::Stored { row: ten_to_eleven(1, true) },
        Event::NoSuchRow,
        Event::Failed,
    ] {
        assert_eq!(create.on_event(event), State::Rejected { reason: Rejection::CreateFailed });
        assert_eq!(update.on_event(event), State::Rejected { reason: Rejection::UpdateFailed });
    }
}

#[test]
fn a_created_reservation_is_always_active() {
    let r = request(1, "2026-01-28T10:00:00Z", "2026-01-28T11:00:00Z", Some(false));
    assert_eq!(
        validated(&ALICE, WriteKind::Create, &r),
        State::Validated { kind: WriteKind::Create, candidate: ten_to_eleven(1, true) }
    );
}

#[test]
fn an_update_takes_the_requested_activity() {
    let kind = WriteKind::Update { id: 4 };
    let r = request(1, "2026-01-28T10:00:00Z", "2026-01-28T11:00:00Z", Some(false));
    assert_eq!(
        validated(&ALICE, kind, &r),
        State::Validated { kind, candidate: ten_to_eleven(1, false) }
    );
    let r = request(1, "2026-01-28T10:00:00Z", "2026-01-28T11:00:00Z", Some(true));
    assert_eq!(validated(&ALICE, kind, &r), State::Validated { kind, candidate: ten_to_eleven(1, true) });
    let r = request(1, "2026-01-28T10:00:00Z", "2026-01-28T11:00:00Z", None);
    assert_eq!(validated(&ALICE, kind, &r), State::Validated { kind, candidate: ten_to_eleven(1, true) });
}

#[test]
fn a_validated_create_asks_for_the_conflict_check() {
    let s = State::Validated { kind: WriteKind::Create, candidate: ten_to_eleven(1, true) };
    let expected = Action::CheckConflict {
        user_id: 1,
        start: Instant { secs: 1769594400, nanos: 0 },
        end: Instant { secs: 1769598000, nanos: 0 },
        exclude_id: None,
    };
    assert_eq!(s.next_action(SelfConflict::Counted, NOW), expected);
    assert_eq!(s.next_action(SelfConflict::Excluded, NOW), expected);
    assert_eq!(s.outcome(), None);
}

#[test]
fn a_validated_update_excludes_itself_only_if_told_to() {
    let s = State::Validated { kind: WriteKind::Update { id: 9 }, candidate: ten_to_eleven(1, true) };
    match s.next_action(SelfConflict::Counted, NOW) {
        Action::CheckConflict { exclude_id, .. } => assert_eq!(exclude_id, None),
        other => panic!("unexpected action {:?}", other),
    }
    match s.next_action(SelfConflict::Excluded, NOW) {
        Action::CheckConflict { exclude_id, .. } => assert_eq!(exclude_id, Some(9)),
        other => panic!("unexpected action {:?}", other),
    }
}

#[test]
fn a_clear_check_leads_to_the_insert() {
    let candidate = ten_to_eleven(1, true);
    let s = State::Validated { kind: WriteKind::Create, candidate };
    let s = s.on_event(Event::ConflictChecked { conflict: false });
    assert_eq!(s, State::Checked { kind: WriteKind::Create, candidate });
    assert_eq!(
        s.next_action(SelfConflict::Counted, NOW),
        Action::Insert {
            row: Reservation { created_at: Some(NOW), updated_at: Some(NOW), ..candidate }
        }
    );
}

#[test]
fn a_clear_check_leads_to_the_update() {
    let candidate = ten_to_eleven(1, false);
    let kind = WriteKind::Update { id: 9 };
    let s = State::Validated { kind, candidate }.on_event(Event::ConflictChecked { conflict: false });
    assert_eq!(s, State::Checked { kind, candidate });
    assert_eq!(
        s.next_action(SelfConflict::Counted, NOW),
        Action::Update { id: 9, fields: Reservation { updated_at: Some(NOW), ..candidate } }
    );
}

#[test]
fn a_conflict_rejects_the_write() {
    let candidate = ten_to_eleven(1, true);
    let s = State::Validated { kind: WriteKind::Create, candidate };
    let s = s.on_event(Event::ConflictChecked { conflict: true });
    assert_eq!(s, State::Rejected { reason: Rejection::Conflict });
    assert_eq!(s.outcome(), Some(Err(Rejection::Conflict)));
    assert_eq!(s.next_action(SelfConflict::Counted, NOW), Action::Done);
    let s = State::Validated { kind: WriteKind::Update { id: 2 }, candidate };
    let s = s.on_event(Event::ConflictChecked { conflict: true });
    assert_eq!(s, State::Rejected { reason: Rejection::UpdateConflict });
}

#[test]
fn a_failed_check_is_an_internal_error() {
    let candidate = ten_to_eleven(1, true);
    let s = State::Validated { kind: WriteKind::Create, candidate };
    let failed = State::Rejected { reason: Rejection::OverlapCheckFailed };
    assert_eq!(s.on_event(Event::Failed), failed);
    assert_eq!(s.on_event(Event::NoSuchRow), failed);
    assert_eq!(s.on_event(Event::Stored { row: candidate }), failed);
    assert_eq!(s.on_event(Event::Authenticated { principal: Ok(ALICE) }), failed);
}

#[test]
fn a_stored_row_commits_the_write() {
    let candidate = ten_to_eleven(1, true);
    let row = Reservation { id: Some(12), created_at: Some(NOW), updated_at: Some(NOW), ..candidate };
    let s = State::Checked { kind: WriteKind::Create, candidate };
    let s = s.on_event(Event::Stored { row });
    assert_eq!(s, State::Committed { row });
    assert_eq!(s.outcome(), Some(Ok(row)));
    assert_eq!(s.next_action(SelfConflict::Counted, NOW), Action::Done);
}

#[test]
fn a_failed_write_is_reported_by_kind() {
    let candidate = ten_to_eleven(1, true);
    let create = State::Checked { kind: WriteKind::Create, candidate };
    let update = State::Checked { kind: WriteKind::Update { id: 3 }, candidate };
    assert_eq!(create.on_event(Event::Failed), State::Rejected { reason: Rejection::CreateFailed });
    assert_eq!(update.on_event(Event::Failed), State::Rejected { reason: Rejection::UpdateFailed });
    assert_eq!(
        update.on_event(Event::NoSuchRow),
        State::Rejected { reason: Rejection::ReservationNotFound }
    );
    assert_eq!(create.on_event(Event::NoSuchRow), State::Rejected { reason: Rejection::CreateFailed });
    assert_eq!(
        update.on_event(Event::ConflictChecked { conflict: false }),
        State::Rejected { reason: Rejection::UpdateFailed }
    );
}

#[test]
fn final_states_ignore_events() {
    let row = ten_to_eleven(1, true);
    let done = State::Committed { row };
    let refused = State::Rejected { reason: Rejection::Conflict };
    for event in [
        Event::Authenticated { principal: Ok(ALICE) },
        Event::Authenticated { principal: Err(Rejection::InvalidToken) },
        Event::ConflictChecked { conflict: true },
        Event::ConflictChecked { conflict: false },
        Event::Stored { row },
        Event::NoSuchRow,
        Event::Failed,
    ] {
        assert_eq!(done.on_event(event), done);
        assert_eq!(refused.on_event(event), refused);
    }
}

#[test]
fn read_outcome_returns_the_principals_row() {
    let row = Reservation { id: Some(4), ..ten_to_eleven(1, true) };
    assert_eq!(read_outcome(&ALICE, Ok(Some(row))), Ok(row));
    assert_eq!(read_outcome(&ALICE, Ok(None)), Err(Rejection::ReservationNotFound));
    assert_eq!(read_outcome(&ALICE, Err(StoreFailure {})), Err(Rejection::FetchFailed));
}

#[test]
fn read_outcome_hides_a_foreign_row() {
    let row = Reservation { id: Some(4), ..ten_to_eleven(2, true) };
    assert_eq!(read_outcome(&ALICE, Ok(Some(row))), Err(Rejection::ReservationNotFound));
}

#[test]
fn list_outcome_keeps_the_principals_rows_in_order() {
    let a = Reservation { id: Some(1), ..ten_to_eleven(1, true) };
    let b = Reservation { id: Some(2), ..ten_to_eleven(2, true) };
    let c = Reservation { id: Some(3), ..ten_to_eleven(1, false) };
    assert_eq!(list_outcome(&ALICE, Ok(vec![a, b, c])), Ok(vec![a, c]));
    assert_eq!(list_outcome(&ALICE, Ok(vec![b])), Ok(vec![]));
    assert_eq!(list_outcome(&ALICE, Ok(vec![])), Ok(vec![]));
    assert_eq!(list_outcome(&ALICE, Err(StoreFailure {})), Err(Rejection::ListFailed));
}
