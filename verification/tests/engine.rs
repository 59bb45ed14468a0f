//! End-to-end scenarios for the synchronization engine: collection windows,
//! merge semantics, cursor movement and failure atomicity.

use athlete_sync::model::{ChangeSet, ConfigSnapshot, Record, SyncError};
use athlete_sync::orchestrator::{begin_sync, finish_sync, perform_sync, sync_round};
use athlete_sync::orchestrator::{TransportFault, WireReply};
use athlete_sync::store::LocalStore;

fn rec(id: u64, modified_at: i64) -> Record {
    Record { id, modified_at, exercise_ref: None, payload: format!("payload-{}", id) }
}

fn workout(id: u64, modified_at: i64, exercise: u64) -> Record {
    Record { id, modified_at, exercise_ref: Some(exercise), payload: format!("workout-{}", id) }
}

/// 2024-01-01T00:00:00Z in milliseconds since the Unix epoch.
const T1_MS: i64 = 1_704_067_200_000;
const T1_TEXT: &str = "2024-01-01T00:00:00+00:00";

fn store_with_url(cursor: Option<i64>) -> LocalStore {
    let mut st = LocalStore::new();
    st.server_url = Some(String::from("https://sync.example/api"));
    st.cursor = cursor;
    st
}

fn empty_reply() -> WireReply {
    WireReply { server_ts_text: String::from(T1_TEXT), incoming: ChangeSet::new() }
}

#[test]
fn collector_returns_exactly_the_new_workouts() {
    // Three workouts modified after the cursor, one older, nothing else new.
    let t0: i64 = 1_000;
    let mut st = store_with_url(Some(t0));
    st.exercises.push(rec(1, 500));
    st.workouts.push(workout(10, 400, 1));
    st.workouts.push(workout(11, 1_500, 1));
    st.workouts.push(workout(12, 2_000, 1));
    st.workouts.push(workout(13, 3_000, 1));

    let cs = st.collect_changes(Some(t0));
    let ids: Vec<u64> = cs.workouts.iter().map(|w| w.id).collect();
    assert_eq!(ids, vec![11, 12, 13]);
    assert!(cs.exercises.is_empty());
    assert!(cs.aliases.is_empty());
    assert!(cs.bodyweights.is_empty());
    assert!(cs.config.is_none());

    let sum = cs.summarize();
    assert_eq!(sum.workouts, 3);
    assert_eq!(sum.exercises, 0);
    assert!(!sum.config);
}

#[test]
fn collector_takes_everything_on_first_sync() {
    let mut st = store_with_url(None);
    st.exercises.push(rec(1, 5));
    st.bodyweights.push(rec(2, 7));
    let cs = st.collect_changes(None);
    assert_eq!(cs.exercises.len(), 1);
    assert_eq!(cs.bodyweights.len(), 1);
    assert!(cs.config.is_some());
}

#[test]
fn collecting_twice_from_the_same_state_yields_the_same_set() {
    let t0: i64 = 1_000;
    let mut st = store_with_url(Some(t0));
    st.exercises.push(rec(1, 1_100));
    st.workouts.push(workout(10, 1_200, 1));
    let first = st.collect_changes(Some(t0));
    let second = st.collect_changes(Some(t0));
    assert_eq!(first, second);
}

#[test]
fn transport_fault_is_a_communication_error_and_changes_nothing() {
    let t0: i64 = 1_000;
    let mut st = store_with_url(Some(t0));
    st.workouts.push(workout(10, 1_500, 1));
    st.exercises.push(rec(1, 500));
    let before = st.clone();

    let r = sync_round(&mut st, None, Err(TransportFault::Timeout));
    assert_eq!(r, Err(SyncError::Communication));
    assert_eq!(st, before);
    assert_eq!(st.cursor, Some(t0));
}

#[test]
fn received_exercises_are_inserted_and_the_cursor_advances() {
    let t0: i64 = 1_000;
    let mut st = store_with_url(Some(t0));

    let mut incoming = ChangeSet::new();
    incoming.exercises.push(rec(21, 2_000));
    incoming.exercises.push(rec(22, 2_500));
    let reply = WireReply { server_ts_text: String::from(T1_TEXT), incoming };

    let r = sync_round(&mut st, None, Ok(reply)).expect("sync should succeed");
    assert_eq!(r.received.exercises, 2);
    assert_eq!(r.sent.workouts, 0);
    let ids: Vec<u64> = st.exercises.iter().map(|e| e.id).collect();
    assert_eq!(ids, vec![21, 22]);
    assert_eq!(st.cursor, Some(T1_MS));
}

#[test]
fn an_existing_identifier_is_overwritten_in_full_and_reapply_changes_nothing() {
    let mut st = store_with_url(Some(0));
    st.exercises.push(rec(5, 100));

    let mut incoming = ChangeSet::new();
    incoming.exercises.push(Record {
        id: 5,
        modified_at: 900,
        exercise_ref: None,
        payload: String::from("replaced"),
    });

    let first = st.apply_changes(&incoming).expect("apply should succeed");
    assert_eq!(first.exercises, 1);
    assert_eq!(st.exercises.len(), 1);
    assert_eq!(st.exercises[0].payload, "replaced");
    assert_eq!(st.exercises[0].modified_at, 900);

    let snapshot = st.clone();
    st.apply_changes(&incoming).expect("re-apply should succeed");
    assert_eq!(st, snapshot);
}

#[test]
fn empty_override_with_no_stored_url_is_a_configuration_error() {
    let mut st = LocalStore::new();
    st.cursor = Some(500);
    let before = st.clone();

    // Even a ready server reply changes nothing: resolution fails first.
    let r = sync_round(&mut st, Some(String::new()), Ok(empty_reply()));
    assert_eq!(r, Err(SyncError::Configuration));
    assert_eq!(st, before);

    let flat = perform_sync(&mut st, Some(String::new()), Ok(empty_reply()));
    assert_eq!(flat.unwrap_err(), "no usable sync server endpoint is configured");
    assert_eq!(st, before);
}

#[test]
fn collecting_at_the_cursor_right_after_a_sync_is_empty() {
    let mut st = store_with_url(Some(1_000));
    st.exercises.push(rec(1, 1_200));
    st.workouts.push(workout(10, 1_300, 1));

    let r = sync_round(&mut st, None, Ok(empty_reply())).expect("sync should succeed");
    assert_eq!(r.sent.exercises, 1);
    assert_eq!(r.sent.workouts, 1);
    assert_eq!(st.cursor, Some(T1_MS));

    let cs = st.collect_changes(st.cursor);
    assert!(cs.exercises.is_empty());
    assert!(cs.workouts.is_empty());
    assert!(cs.aliases.is_empty());
    assert!(cs.bodyweights.is_empty());
    assert!(cs.config.is_none());
}

#[test]
fn the_cursor_never_regresses_on_success() {
    let t0: i64 = 1_000;
    let mut st = store_with_url(Some(t0));
    sync_round(&mut st, None, Ok(empty_reply())).expect("sync should succeed");
    assert!(st.cursor.unwrap() >= t0);
    assert_eq!(st.cursor, Some(T1_MS));
}

#[test]
fn a_dangling_workout_reference_is_refused_and_nothing_is_persisted() {
    let t0: i64 = 1_000;
    let mut st = store_with_url(Some(t0));
    st.exercises.push(rec(1, 500));
    let before = st.clone();

    let mut incoming = ChangeSet::new();
    incoming.exercises.push(rec(2, 2_000));
    incoming.workouts.push(workout(30, 2_000, 1)); // resolves against the store
    incoming.workouts.push(workout(31, 2_100, 99)); // dangles
    let reply = WireReply { server_ts_text: String::from(T1_TEXT), incoming };

    let r = sync_round(&mut st, None, Ok(reply));
    assert_eq!(r, Err(SyncError::Apply { record_id: 31 }));
    // Atomicity: neither the records nor the cursor moved.
    assert_eq!(st, before);
    assert_eq!(st.cursor, Some(t0));
}

#[test]
fn a_workout_may_reference_an_exercise_of_the_same_batch() {
    let mut st = store_with_url(Some(0));
    let mut incoming = ChangeSet::new();
    incoming.exercises.push(rec(40, 100));
    incoming.workouts.push(workout(41, 150, 40));
    st.apply_changes(&incoming).expect("apply should succeed");
    assert_eq!(st.exercises.len(), 1);
    assert_eq!(st.workouts.len(), 1);
}

#[test]
fn a_malformed_server_timestamp_is_a_communication_error() {
    let mut st = store_with_url(Some(1_000));
    let before = st.clone();
    let reply = WireReply {
        server_ts_text: String::from("yesterday at noon"),
        incoming: ChangeSet::new(),
    };
    let r = sync_round(&mut st, None, Ok(reply));
    assert_eq!(r, Err(SyncError::Communication));
    assert_eq!(st, before);
}

#[test]
fn a_local_write_during_the_exchange_is_missed_now_and_caught_next_time() {
    // The read and write phases are separate exclusive scopes: between them
    // the store is free, and a record logged during the network phase simply
    // waits for the next window.
    let t0: i64 = 1_000;
    let mut st = store_with_url(Some(t0));
    st.exercises.push(rec(1, 500));

    let prelude = begin_sync(&st, None).expect("read phase should succeed");
    assert_eq!(prelude.sent.workouts, 0);

    // Concurrent local mutation while the exchange is in flight.
    st.workouts.push(workout(50, T1_MS + 5_000, 1));

    let received = finish_sync(&mut st, &ChangeSet::new(), T1_MS).expect("write phase");
    assert_eq!(received.exercises, 0);

    // The interleaved workout was not sent, was not lost, and is picked up
    // by the next collection window.
    assert_eq!(st.workouts.len(), 1);
    let next = st.collect_changes(st.cursor);
    let ids: Vec<u64> = next.workouts.iter().map(|w| w.id).collect();
    assert_eq!(ids, vec![50]);
}

#[test]
fn an_incoming_config_snapshot_replaces_the_stored_one_wholesale() {
    let mut st = store_with_url(Some(0));
    st.config = ConfigSnapshot { modified_at: 10, payload: String::from("old-config") };
    let mut incoming = ChangeSet::new();
    incoming.config = Some(ConfigSnapshot { modified_at: 800, payload: String::from("new-config") });
    st.apply_changes(&incoming).expect("apply should succeed");
    assert_eq!(st.config.payload, "new-config");
    assert_eq!(st.config.modified_at, 800);
}

#[test]
fn the_prelude_carries_the_cursor_in_wire_form() {
    let mut st = store_with_url(Some(T1_MS));
    st.cursor = Some(T1_MS);
    let prelude = begin_sync(&st, None).expect("read phase should succeed");
    assert_eq!(prelude.since, Some(T1_MS));
    assert_eq!(prelude.since_text.as_deref(), Some(T1_TEXT));
    assert_eq!(prelude.endpoint, "https://sync.example/api");

    let fresh = store_with_url(None);
    let p2 = begin_sync(&fresh, None).expect("read phase should succeed");
    assert!(p2.since_text.is_none());
}
