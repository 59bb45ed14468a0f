//! The wire boundary and the error taxonomy: RFC 3339 conversion, endpoint
//! resolution and the flattened error texts.

use athlete_sync::model::{ChangeSet, Record, SyncError};
use athlete_sync::orchestrator::describe_error;
use athlete_sync::store::LocalStore;
use athlete_sync::wire::{cursor_wire_text, parse_server_timestamp};

#[test]
fn the_epoch_renders_as_rfc3339() {
    assert_eq!(cursor_wire_text(Some(0)).as_deref(), Some("1970-01-01T00:00:00+00:00"));
    assert_eq!(cursor_wire_text(None), None);
}

#[test]
fn a_known_instant_parses_to_its_millisecond_value() {
    assert_eq!(parse_server_timestamp("2024-01-01T00:00:00+00:00"), Ok(1_704_067_200_000));
    assert_eq!(parse_server_timestamp("1970-01-01T00:00:00+00:00"), Ok(0));
}

#[test]
fn parsing_normalizes_offsets_to_utc() {
    assert_eq!(parse_server_timestamp("2024-01-01T01:00:00+01:00"), Ok(1_704_067_200_000));
    assert_eq!(parse_server_timestamp("2023-12-31T19:00:00-05:00"), Ok(1_704_067_200_000));
}

#[test]
fn rendering_and_parsing_round_trip() {
    let ms: i64 = 1_700_000_123_000;
    let text = cursor_wire_text(Some(ms)).expect("in-range instant must render");
    assert_eq!(parse_server_timestamp(&text), Ok(ms));
}

#[test]
fn text_that_is_not_rfc3339_is_a_communication_error() {
    assert_eq!(parse_server_timestamp(""), Err(SyncError::Communication));
    assert_eq!(parse_server_timestamp("2024-01-01"), Err(SyncError::Communication));
    assert_eq!(parse_server_timestamp("yesterday at noon"), Err(SyncError::Communication));
}

#[test]
fn endpoint_resolution_prefers_a_nonempty_override() {
    let mut st = LocalStore::new();
    st.server_url = Some(String::from("https://stored.example"));

    let over = st.resolve_endpoint(Some(String::from("https://override.example")));
    assert_eq!(over.unwrap(), "https://override.example");

    let stored = st.resolve_endpoint(None);
    assert_eq!(stored.unwrap(), "https://stored.example");

    // An empty override is never accepted silently: it falls back.
    let fallback = st.resolve_endpoint(Some(String::new()));
    assert_eq!(fallback.unwrap(), "https://stored.example");
}

#[test]
fn no_endpoint_anywhere_is_a_configuration_error() {
    let st = LocalStore::new();
    assert_eq!(st.resolve_endpoint(None), Err(SyncError::Configuration));
    assert_eq!(st.resolve_endpoint(Some(String::new())), Err(SyncError::Configuration));

    let mut empty_stored = LocalStore::new();
    empty_stored.server_url = Some(String::new());
    assert_eq!(empty_stored.resolve_endpoint(None), Err(SyncError::Configuration));
}

#[test]
fn a_stored_url_can_be_set_and_cleared() {
    let mut st = LocalStore::new();
    st.set_sync_server_url(Some(String::from("https://sync.example")));
    assert_eq!(st.resolve_endpoint(None).unwrap(), "https://sync.example");
    st.set_sync_server_url(None);
    assert_eq!(st.resolve_endpoint(None), Err(SyncError::Configuration));
}

#[test]
fn each_error_category_flattens_to_its_own_text() {
    let texts = [
        describe_error(&SyncError::Configuration),
        describe_error(&SyncError::Collection),
        describe_error(&SyncError::Communication),
        describe_error(&SyncError::Apply { record_id: 3 }),
    ];
    assert_eq!(texts[0], "no usable sync server endpoint is configured");
    assert_eq!(texts[1], "the local store could not be read");
    assert_eq!(texts[2], "sync communication with the server failed");
    assert_eq!(texts[3], "a received record could not be applied");
    for i in 0..texts.len() {
        for j in 0..texts.len() {
            if i != j {
                assert_ne!(texts[i], texts[j]);
            }
        }
    }
}

#[test]
fn a_summary_counts_every_category() {
    let mut cs = ChangeSet::new();
    cs.exercises.push(Record {
        id: 1,
        modified_at: 1,
        exercise_ref: None,
        payload: String::new(),
    });
    cs.exercises.push(Record {
        id: 2,
        modified_at: 2,
        exercise_ref: None,
        payload: String::new(),
    });
    cs.workouts.push(Record {
        id: 3,
        modified_at: 3,
        exercise_ref: Some(1),
        payload: String::new(),
    });
    let sum = cs.summarize();
    assert_eq!(sum.exercises, 2);
    assert_eq!(sum.workouts, 1);
    assert_eq!(sum.aliases, 0);
    assert_eq!(sum.bodyweights, 0);
    assert!(!sum.config);
}
