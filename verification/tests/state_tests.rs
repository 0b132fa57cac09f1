use repo_index::json::Json;
use repo_index::state::{read_state_current, read_state_legacy, BuildRecord, StateError};

fn plugin_entry(time_built: &str) -> Json {
    Json::Obj(vec![("TimeBuilt".to_string(), Json::Str(time_built.to_string()))])
}

fn current_doc(entries: &[(&str, &str)]) -> Json {
    let plugins: Vec<(String, Json)> = entries
        .iter()
        .map(|(name, time)| ((*name).to_string(), plugin_entry(time)))
        .collect();
    Json::Obj(vec![(
        "Channels".to_string(),
        Json::Obj(vec![(
            "stable".to_string(),
            Json::Obj(vec![("Plugins".to_string(), Json::Obj(plugins))]),
        )]),
    )])
}

fn legacy_doc(entries: &[(&str, &str)]) -> Json {
    let plugins: Vec<(String, Json)> = entries
        .iter()
        .map(|(name, time)| ((*name).to_string(), plugin_entry(time)))
        .collect();
    Json::Obj(vec![(
        "stable".to_string(),
        Json::Obj(vec![("plugins".to_string(), Json::Obj(plugins))]),
    )])
}

#[test]
fn current_reader_parses_one_entry() {
    let doc = current_doc(&[("Foo", "2024-01-15T10:00:00Z")]);
    let recs = read_state_current(&doc).unwrap();
    assert_eq!(recs.len(), 1);
    assert_eq!(recs[0].plugin_name, "Foo");
    assert_eq!(recs[0].time_built_ms, 1705312800000);
}

#[test]
fn current_reader_keeps_encounter_order() {
    let doc = current_doc(&[
        ("Zeta", "2024-01-15T10:00:00Z"),
        ("Alpha", "2024-01-16T10:00:00Z"),
        ("Mid", "2024-01-17T10:00:00Z"),
    ]);
    let recs = read_state_current(&doc).unwrap();
    let names: Vec<&str> = recs.iter().map(|r| r.plugin_name.as_str()).collect();
    assert_eq!(names, vec!["Zeta", "Alpha", "Mid"]);
}

#[test]
fn current_reader_spans_all_channels() {
    let one = Json::Obj(vec![(
        "Plugins".to_string(),
        Json::Obj(vec![("A".to_string(), plugin_entry("2024-01-15T10:00:00Z"))]),
    )]);
    let two = Json::Obj(vec![(
        "Plugins".to_string(),
        Json::Obj(vec![("B".to_string(), plugin_entry("2024-01-16T10:00:00Z"))]),
    )]);
    let doc = Json::Obj(vec![(
        "Channels".to_string(),
        Json::Obj(vec![("stable".to_string(), one), ("other".to_string(), two)]),
    )]);
    let recs = read_state_current(&doc).unwrap();
    assert_eq!(recs.len(), 2);
    assert_eq!(recs[0].plugin_name, "A");
    assert_eq!(recs[1].plugin_name, "B");
}

#[test]
fn current_reader_honours_timezone_offsets() {
    let doc = current_doc(&[("Foo", "2024-01-15T11:00:00+01:00")]);
    let recs = read_state_current(&doc).unwrap();
    assert_eq!(recs[0].time_built_ms, 1705312800000);
}

#[test]
fn current_reader_rejects_missing_channels_key() {
    let doc = Json::Obj(vec![("Wrong".to_string(), Json::Obj(vec![]))]);
    assert_eq!(read_state_current(&doc), Err(StateError::BadShape));
}

#[test]
fn current_reader_rejects_non_object_document() {
    assert_eq!(read_state_current(&Json::Str("hi".to_string())), Err(StateError::BadShape));
}

#[test]
fn current_reader_rejects_entry_without_time() {
    let doc = Json::Obj(vec![(
        "Channels".to_string(),
        Json::Obj(vec![(
            "stable".to_string(),
            Json::Obj(vec![(
                "Plugins".to_string(),
                Json::Obj(vec![("Foo".to_string(), Json::Obj(vec![]))]),
            )]),
        )]),
    )]);
    assert_eq!(read_state_current(&doc), Err(StateError::BadShape));
}

#[test]
fn current_reader_fails_whole_run_on_bad_timestamp() {
    let doc = current_doc(&[
        ("Good", "2024-01-15T10:00:00Z"),
        ("Bad", "not-a-timestamp"),
    ]);
    assert_eq!(read_state_current(&doc), Err(StateError::BadTimestamp));
}

#[test]
fn current_reader_rejects_zoneless_timestamp() {
    let doc = current_doc(&[("Foo", "2024-01-15T10:00:00")]);
    assert_eq!(read_state_current(&doc), Err(StateError::BadTimestamp));
}

#[test]
fn legacy_reader_parses_zoneless_times_as_utc() {
    let doc = legacy_doc(&[("Foo", "2024-01-15T10:00:00")]);
    let recs = read_state_legacy(&doc).unwrap();
    assert_eq!(recs.len(), 1);
    assert_eq!(recs[0].plugin_name, "Foo");
    assert_eq!(recs[0].time_built_ms, 1705312800000);
}

#[test]
fn legacy_reader_rejects_time_that_already_has_zone() {
    let doc = legacy_doc(&[("Foo", "2024-01-15T10:00:00Z")]);
    assert_eq!(read_state_legacy(&doc), Err(StateError::BadTimestamp));
}

#[test]
fn legacy_reader_rejects_missing_plugins_table() {
    let doc = Json::Obj(vec![("stable".to_string(), Json::Obj(vec![]))]);
    assert_eq!(read_state_legacy(&doc), Err(StateError::BadShape));
}

#[test]
fn legacy_and_current_readers_agree_on_equivalent_content() {
    let legacy = legacy_doc(&[
        ("Foo", "2024-01-15T10:00:00"),
        ("Bar", "2023-06-30T23:59:59"),
    ]);
    let current = current_doc(&[
        ("Foo", "2024-01-15T10:00:00Z"),
        ("Bar", "2023-06-30T23:59:59Z"),
    ]);
    let from_legacy: Vec<BuildRecord> = read_state_legacy(&legacy).unwrap();
    let from_current: Vec<BuildRecord> = read_state_current(&current).unwrap();
    assert_eq!(from_legacy, from_current);
}

#[test]
fn duplicate_plugin_names_produce_duplicate_records() {
    let doc = current_doc(&[
        ("Foo", "2024-01-15T10:00:00Z"),
        ("Foo", "2024-01-16T10:00:00Z"),
    ]);
    let recs = read_state_current(&doc).unwrap();
    assert_eq!(recs.len(), 2);
    assert_eq!(recs[0].plugin_name, "Foo");
    assert_eq!(recs[1].plugin_name, "Foo");
    assert_ne!(recs[0].time_built_ms, recs[1].time_built_ms);
}

#[test]
fn empty_plugin_table_yields_no_records() {
    let doc = current_doc(&[]);
    let recs = read_state_current(&doc).unwrap();
    assert_eq!(recs.len(), 0);
}
