use reservation_core::auth::{issue_jwt, AuthConfig};
use reservation_core::clock::{parse, Instant};
use reservation_core::errors::{ErrorKind, Rejection};
use reservation_core::reservations::Reservation;
use reservation_core::service::{
    create_reservation, get_all_reservations, get_reservation_by_id, update_reservation,
};
use reservation_core::store::ReservationStore;
use reservation_core::workflow::{ReservationRequest, SelfConflict};

const NOW: Instant = Instant { secs: 1769500000, nanos: 0 };
const LATER: Instant = Instant { secs: 1769503600, nanos: 500 };

const TEN: &str = "2026-01-28T10:00:00Z";
const HALF_PAST_TEN: &str = "2026-01-28T10:30:00Z";
const QUARTER_TO_ELEVEN: &str = "2026-01-28T10:45:00Z";
const ELEVEN: &str = "2026-01-28T11:00:00Z";
const TWELVE: &str = "2026-01-28T12:00:00Z";
const THIRTEEN: &str = "2026-01-28T13:00:00Z";

fn config() -> AuthConfig {
    AuthConfig::new(Some("test-secret".to_string()), None)
}

fn token_for(user: i64) -> String {
    issue_jwt(&config(), user, NOW).expect("a token")
}

fn request(owner: i64, start: &str, end: &str) -> ReservationRequest {
    ReservationRequest {
        user_id: owner,
        start_datetime: start.to_string(),
        end_datetime: end.to_string(),
        is_active: None,
    }
}

fn at(text: &str) -> Instant {
    parse(text).unwrap()
}

type Outcome = Result<Reservation, Rejection>;

fn create(store: &mut ReservationStore, token: &str, request: &ReservationRequest) -> Outcome {
    create_reservation(store, &config(), token, request, NOW)
}

fn book(store: &mut ReservationStore, owner: i64, start: &str, end: &str) -> Outcome {
    create(store, &token_for(owner), &request(owner, start, end))
}

fn read(store: &ReservationStore, reader: i64, id: i64) -> Outcome {
    get_reservation_by_id(store, &config(), &token_for(reader), id, NOW)
}

fn change(
    store: &mut ReservationStore,
    policy: SelfConflict,
    token: &str,
    id: i64,
    request: &ReservationRequest,
) -> Outcome {
    update_reservation(store, &config(), policy, token, id, request, LATER)
}

#[test]
fn create_then_overlapping_create_conflicts() {
    let mut store = ReservationStore::new();
    let row = book(&mut store, 1, TEN, ELEVEN).expect("the first reservation is stored");
    assert!(row.id.is_some());
    assert!(row.is_active);
    assert_eq!(
        row,
        Reservation {
            id: Some(1),
            user_id: 1,
            start_datetime: Instant { secs: 1769594400, nanos: 0 },
            end_datetime: Instant { secs: 1769598000, nanos: 0 },
            is_active: true,
            created_at: Some(NOW),
            updated_at: Some(NOW),
        }
    );
    let second = book(&mut store, 1, HALF_PAST_TEN, QUARTER_TO_ELEVEN);
    assert_eq!(second, Err(Rejection::Conflict));
    assert_eq!(Rejection::Conflict.kind(), ErrorKind::Conflict);
    assert_eq!(store.len(), 1);
}

#[test]
fn create_accepts_a_back_to_back_reservation() {
    let mut store = ReservationStore::new();
    book(&mut store, 1, TEN, ELEVEN).unwrap();
    let next = book(&mut store, 1, ELEVEN, TWELVE).unwrap();
    assert_eq!(next.id, Some(2));
    let before = book(&mut store, 1, "2026-01-28T09:00:00Z", TEN).unwrap();
    assert_eq!(before.id, Some(3));
    assert_eq!(store.len(), 3);
}

#[test]
fn create_for_another_owner_is_independent() {
    let mut store = ReservationStore::new();
    book(&mut store, 1, TEN, ELEVEN).unwrap();
    let other = book(&mut store, 2, TEN, ELEVEN).unwrap();
    assert_eq!(other.id, Some(2));
    assert_eq!(other.user_id, 2);
}

#[test]
fn create_ignores_a_request_to_start_inactive() {
    let mut store = ReservationStore::new();
    let mut wish = request(1, TEN, ELEVEN);
    wish.is_active = Some(false);
    let row = create(&mut store, &token_for(1), &wish).unwrap();
    assert!(row.is_active);
}

#[test]
fn create_is_refused_without_a_sound_token() {
    let mut store = ReservationStore::new();
    let wish = request(1, TEN, ELEVEN);
    assert_eq!(create(&mut store, "", &wish), Err(Rejection::MissingToken));
    assert_eq!(create(&mut store, "x.y.z", &wish), Err(Rejection::InvalidToken));
    let expired = Instant::new(NOW.secs + 86400, 0);
    let late = create_reservation(&mut store, &config(), &token_for(1), &wish, expired);
    assert_eq!(late, Err(Rejection::InvalidToken));
    assert_eq!(store.len(), 0);
}

#[test]
fn create_for_someone_else_is_forbidden() {
    let mut store = ReservationStore::new();
    let out = create(&mut store, &token_for(1), &request(2, TEN, ELEVEN));
    assert_eq!(out, Err(Rejection::Forbidden));
    assert_eq!(Rejection::Forbidden.kind(), ErrorKind::Forbidden);
    assert_eq!(store.len(), 0);
}

#[test]
fn create_rejects_an_invalid_range_before_looking_for_conflicts() {
    let mut store = ReservationStore::new();
    book(&mut store, 1, TEN, ELEVEN).unwrap();
    let invalid = Err(Rejection::InvalidRange);
    assert_eq!(book(&mut store, 1, QUARTER_TO_ELEVEN, HALF_PAST_TEN), invalid);
    assert_eq!(book(&mut store, 1, TEN, TEN), invalid);
    assert_eq!(book(&mut store, 1, "10:00", "11:00"), invalid);
    assert_eq!(Rejection::InvalidRange.kind(), ErrorKind::InvalidRange);
    assert_eq!(store.len(), 1);
}

#[test]
fn get_returns_the_same_row_every_time() {
    let mut store = ReservationStore::new();
    let row = book(&mut store, 1, TEN, ELEVEN).unwrap();
    let token = token_for(1);
    let first = get_reservation_by_id(&store, &config(), &token, 1, NOW);
    let second = get_reservation_by_id(&store, &config(), &token, 1, LATER);
    assert_eq!(first, Ok(row));
    assert_eq!(first, second);
}

#[test]
fn get_hides_reservations_of_other_owners() {
    let mut store = ReservationStore::new();
    book(&mut store, 1, TEN, ELEVEN).unwrap();
    book(&mut store, 7, TEN, ELEVEN).unwrap();
    let out = read(&store, 5, 1);
    assert_eq!(out, Err(Rejection::ReservationNotFound));
    assert_eq!(Rejection::ReservationNotFound.kind(), ErrorKind::NotFound);
    assert_eq!(read(&store, 5, 2), Err(Rejection::ReservationNotFound));
    assert_eq!(read(&store, 5, 3), Err(Rejection::ReservationNotFound));
    assert_eq!(read(&store, 7, 1), Err(Rejection::ReservationNotFound));
    assert!(read(&store, 7, 2).is_ok());
}

#[test]
fn get_is_refused_without_a_sound_token() {
    let store = ReservationStore::new();
    let c = config();
    assert_eq!(get_reservation_by_id(&store, &c, "", 1, NOW), Err(Rejection::MissingToken));
    assert_eq!(get_reservation_by_id(&store, &c, "nonsense", 1, NOW), Err(Rejection::InvalidToken));
    let nobody = AuthConfig::new(None, None);
    let out = get_reservation_by_id(&store, &nobody, "a.b.c", 1, NOW);
    assert_eq!(out, Err(Rejection::SecretNotConfigured));
}

#[test]
fn list_returns_only_the_principals_rows() {
    let mut store = ReservationStore::new();
    let c = config();
    let a = book(&mut store, 1, TEN, ELEVEN).unwrap();
    let b = book(&mut store, 2, TEN, ELEVEN).unwrap();
    let d = book(&mut store, 1, TWELVE, THIRTEEN).unwrap();
    assert_eq!(get_all_reservations(&store, &c, &token_for(1), NOW), Ok(vec![a, d]));
    assert_eq!(get_all_reservations(&store, &c, &token_for(2), NOW), Ok(vec![b]));
    assert_eq!(get_all_reservations(&store, &c, &token_for(3), NOW), Ok(vec![]));
    assert_eq!(get_all_reservations(&store, &c, "", NOW), Err(Rejection::MissingToken));
}

#[test]
fn update_moves_a_reservation() {
    let mut store = ReservationStore::new();
    let row = book(&mut store, 1, TEN, ELEVEN).unwrap();
    let token = token_for(1);
    let moved =
        change(&mut store, SelfConflict::Counted, &token, 1, &request(1, TWELVE, THIRTEEN));
    let expected = Reservation {
        id: Some(1),
        user_id: 1,
        start_datetime: at(TWELVE),
        end_datetime: at(THIRTEEN),
        is_active: true,
        created_at: row.created_at,
        updated_at: Some(LATER),
    };
    assert_eq!(moved, Ok(expected));
    assert_eq!(read(&store, 1, 1), Ok(expected));
    assert_eq!(store.len(), 1);
}

#[test]
fn update_conflicts_with_itself_when_it_is_counted() {
    let mut store = ReservationStore::new();
    book(&mut store, 1, TEN, ELEVEN).unwrap();
    let shrink = request(1, HALF_PAST_TEN, QUARTER_TO_ELEVEN);
    let out = change(&mut store, SelfConflict::Counted, &token_for(1), 1, &shrink);
    assert_eq!(out, Err(Rejection::UpdateConflict));
    assert_eq!(Rejection::UpdateConflict.kind(), ErrorKind::Conflict);
}

#[test]
fn update_does_not_conflict_with_itself_when_it_is_excluded() {
    let mut store = ReservationStore::new();
    book(&mut store, 1, TEN, ELEVEN).unwrap();
    book(&mut store, 1, ELEVEN, TWELVE).unwrap();
    let token = token_for(1);
    let shrink = request(1, HALF_PAST_TEN, QUARTER_TO_ELEVEN);
    let out = change(&mut store, SelfConflict::Excluded, &token, 1, &shrink);
    assert_eq!(out.map(|r| (r.id, r.start_datetime)), Ok((Some(1), at(HALF_PAST_TEN))));
    let grow = request(1, HALF_PAST_TEN, "2026-01-28T11:30:00Z");
    let out = change(&mut store, SelfConflict::Excluded, &token, 1, &grow);
    assert_eq!(out, Err(Rejection::UpdateConflict));
}

#[test]
fn update_can_deactivate_a_reservation() {
    let mut store = ReservationStore::new();
    book(&mut store, 1, TEN, ELEVEN).unwrap();
    let mut cancel = request(1, TEN, ELEVEN);
    cancel.is_active = Some(false);
    let out = change(&mut store, SelfConflict::Excluded, &token_for(1), 1, &cancel).unwrap();
    assert!(!out.is_active);
    let again = book(&mut store, 1, HALF_PAST_TEN, QUARTER_TO_ELEVEN);
    assert_eq!(again.map(|r| r.id), Ok(Some(2)));
}

#[test]
fn update_of_a_foreign_or_missing_row_is_not_found() {
    let mut store = ReservationStore::new();
    book(&mut store, 1, TEN, ELEVEN).unwrap();
    let five = token_for(5);
    let wish = request(5, TEN, ELEVEN);
    let missing = Err(Rejection::ReservationNotFound);
    assert_eq!(change(&mut store, SelfConflict::Counted, &five, 1, &wish), missing);
    assert_eq!(change(&mut store, SelfConflict::Counted, &five, 9, &wish), missing);
    let untouched = read(&store, 1, 1).unwrap();
    assert_eq!(untouched.updated_at, Some(NOW));
    assert_eq!(untouched.start_datetime, at(TEN));
}

#[test]
fn update_runs_the_same_checks_as_create() {
    let mut store = ReservationStore::new();
    book(&mut store, 1, TEN, ELEVEN).unwrap();
    let token = token_for(1);
    let p = SelfConflict::Counted;
    let ok = request(1, TWELVE, THIRTEEN);
    assert_eq!(change(&mut store, p, "", 1, &ok), Err(Rejection::MissingToken));
    assert_eq!(change(&mut store, p, "bad", 1, &ok), Err(Rejection::InvalidToken));
    let foreign = request(2, TWELVE, THIRTEEN);
    assert_eq!(change(&mut store, p, &token, 1, &foreign), Err(Rejection::Forbidden));
    let reversed = request(1, THIRTEEN, TWELVE);
    assert_eq!(change(&mut store, p, &token, 1, &reversed), Err(Rejection::InvalidRange));
    assert_eq!(read(&store, 1, 1).map(|r| r.updated_at), Ok(Some(NOW)));
}
