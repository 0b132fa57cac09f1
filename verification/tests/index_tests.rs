use repo_index::json::Json;
use repo_index::manifest::parse_manifest;
use repo_index::merge::{build_index, derive_fields, index_to_json};
use repo_index::state::read_state_current;

fn str_field(key: &str, value: &str) -> (String, Json) {
    (key.to_string(), Json::Str(value.to_string()))
}

fn manifest_doc(internal_name: &str) -> Json {
    Json::Obj(vec![
        str_field("Author", "Alice"),
        str_field("Name", internal_name),
        str_field("InternalName", internal_name),
        str_field("AssemblyVersion", "1.0.0.0"),
        str_field("Description", "A plugin."),
        str_field("ApplicableVersion", "any"),
        str_field("RepoUrl", "https://repo.example"),
        ("Tags".to_string(), Json::Arr(vec![])),
        ("DalamudApiLevel".to_string(), Json::Int(9)),
        ("LoadRequiredState".to_string(), Json::Int(0)),
        ("LoadSync".to_string(), Json::Bool(false)),
        ("CanUnloadAsync".to_string(), Json::Bool(false)),
        ("LoadPriority".to_string(), Json::Int(0)),
        str_field("Punchline", "!"),
        ("AcceptsFeedback".to_string(), Json::Bool(true)),
        ("_isDip17Plugin".to_string(), Json::Bool(false)),
        str_field("_Dip17Channel", "somewhere-else"),
        ("DownloadCount".to_string(), Json::Int(4242)),
        str_field("DownloadLinkInstall", "https://stale.example/old.zip"),
        str_field("DownloadLinkUpdate", "https://stale.example/older.zip"),
        str_field("DownloadLinkTesting", "https://stale.example/oldest.zip"),
        ("LastUpdate".to_string(), Json::Int(1)),
    ])
}

fn state_doc(entries: &[(&str, &str)]) -> Json {
    let plugins: Vec<(String, Json)> = entries
        .iter()
        .map(|(name, time)| {
            (
                (*name).to_string(),
                Json::Obj(vec![("TimeBuilt".to_string(), Json::Str((*time).to_string()))]),
            )
        })
        .collect();
    Json::Obj(vec![(
        "Channels".to_string(),
        Json::Obj(vec![(
            "stable".to_string(),
            Json::Obj(vec![("Plugins".to_string(), Json::Obj(plugins))]),
        )]),
    )])
}

#[test]
fn example_entry_gets_all_derived_fields() {
    let state = state_doc(&[("Foo", "2024-01-15T10:00:00Z")]);
    let recs = read_state_current(&state).unwrap();
    let docs = vec![Some(manifest_doc("Foo"))];
    let index = build_index(&recs, &docs, "https://example.com");
    assert_eq!(index.len(), 1);
    let entry = &index[0];
    assert_eq!(entry.last_update, 1705312800);
    assert_eq!(
        entry.download_link_install,
        "https://example.com/stable/Foo/latest.zip"
    );
    assert_eq!(entry.download_count, 0);
    assert!(entry.is_dip17_plugin);
    assert_eq!(entry.dip17_channel, "stable");
}

#[test]
fn download_count_is_reset_regardless_of_manifest_value() {
    let state = state_doc(&[("Foo", "2024-01-15T10:00:00Z")]);
    let recs = read_state_current(&state).unwrap();
    let index = build_index(&recs, &vec![Some(manifest_doc("Foo"))], "https://h");
    assert_eq!(index[0].download_count, 0);
}

#[test]
fn provenance_fields_are_forced_regardless_of_manifest_values() {
    let state = state_doc(&[("Foo", "2024-01-15T10:00:00Z")]);
    let recs = read_state_current(&state).unwrap();
    let index = build_index(&recs, &vec![Some(manifest_doc("Foo"))], "https://h");
    assert!(index[0].is_dip17_plugin);
    assert_eq!(index[0].dip17_channel, "stable");
}

#[test]
fn update_and_testing_links_equal_install_link() {
    let state = state_doc(&[("Foo", "2024-01-15T10:00:00Z")]);
    let recs = read_state_current(&state).unwrap();
    let index = build_index(&recs, &vec![Some(manifest_doc("Foo"))], "https://h");
    assert_eq!(index[0].download_link_update, index[0].download_link_install);
    assert_eq!(index[0].download_link_testing, index[0].download_link_install);
}

#[test]
fn untouched_fields_pass_through_from_manifest() {
    let state = state_doc(&[("Foo", "2024-01-15T10:00:00Z")]);
    let recs = read_state_current(&state).unwrap();
    let index = build_index(&recs, &vec![Some(manifest_doc("Foo"))], "https://h");
    assert_eq!(index[0].author, "Alice");
    assert_eq!(index[0].internal_name, "Foo");
    assert_eq!(index[0].punchline, "!");
    assert!(index[0].accepts_feedback);
    assert_eq!(index[0].changelog, "");
}

#[test]
fn derivation_is_idempotent() {
    let state = state_doc(&[("Foo", "2024-01-15T10:00:00Z")]);
    let recs = read_state_current(&state).unwrap();
    let m1 = parse_manifest(&manifest_doc("Foo")).unwrap();
    let m2 = parse_manifest(&manifest_doc("Foo")).unwrap();
    let once = derive_fields(m1, &recs[0], "https://h");
    let twice = derive_fields(derive_fields(m2, &recs[0], "https://h"), &recs[0], "https://h");
    assert_eq!(twice, once);
}

#[test]
fn two_runs_on_unchanged_inputs_agree() {
    let state = state_doc(&[("Foo", "2024-01-15T10:00:00Z"), ("Bar", "2024-02-01T00:00:00Z")]);
    let first = {
        let recs = read_state_current(&state).unwrap();
        let docs = vec![Some(manifest_doc("Foo")), Some(manifest_doc("Bar"))];
        build_index(&recs, &docs, "https://h")
    };
    let second = {
        let recs = read_state_current(&state).unwrap();
        let docs = vec![Some(manifest_doc("Foo")), Some(manifest_doc("Bar"))];
        build_index(&recs, &docs, "https://h")
    };
    assert_eq!(first, second);
}

#[test]
fn missing_manifest_is_skipped_and_run_continues() {
    let state = state_doc(&[
        ("First", "2024-01-15T10:00:00Z"),
        ("Gone", "2024-01-16T10:00:00Z"),
        ("Last", "2024-01-17T10:00:00Z"),
    ]);
    let recs = read_state_current(&state).unwrap();
    let docs = vec![Some(manifest_doc("First")), None, Some(manifest_doc("Last"))];
    let index = build_index(&recs, &docs, "https://h");
    assert_eq!(index.len(), 2);
    assert_eq!(index[0].internal_name, "First");
    assert_eq!(index[1].internal_name, "Last");
}

#[test]
fn malformed_manifest_is_skipped_and_run_continues() {
    let state = state_doc(&[
        ("First", "2024-01-15T10:00:00Z"),
        ("Broken", "2024-01-16T10:00:00Z"),
    ]);
    let recs = read_state_current(&state).unwrap();
    let docs = vec![
        Some(manifest_doc("First")),
        Some(Json::Obj(vec![str_field("Author", "nobody else")])),
    ];
    let index = build_index(&recs, &docs, "https://h");
    assert_eq!(index.len(), 1);
    assert_eq!(index[0].internal_name, "First");
}

#[test]
fn index_length_equals_resolved_record_count() {
    let state = state_doc(&[
        ("A", "2024-01-15T10:00:00Z"),
        ("B", "2024-01-16T10:00:00Z"),
        ("C", "2024-01-17T10:00:00Z"),
        ("D", "2024-01-18T10:00:00Z"),
    ]);
    let recs = read_state_current(&state).unwrap();
    let docs = vec![
        Some(manifest_doc("A")),
        None,
        Some(manifest_doc("C")),
        Some(manifest_doc("D")),
    ];
    let index = build_index(&recs, &docs, "https://h");
    assert_eq!(index.len(), 3);
}

#[test]
fn index_keeps_encounter_order() {
    let state = state_doc(&[
        ("Zeta", "2024-01-15T10:00:00Z"),
        ("Alpha", "2024-01-16T10:00:00Z"),
    ]);
    let recs = read_state_current(&state).unwrap();
    let docs = vec![Some(manifest_doc("Zeta")), Some(manifest_doc("Alpha"))];
    let index = build_index(&recs, &docs, "https://h");
    let names: Vec<&str> = index.iter().map(|m| m.internal_name.as_str()).collect();
    assert_eq!(names, vec!["Zeta", "Alpha"]);
}

#[test]
fn duplicate_records_produce_duplicate_entries() {
    let state = state_doc(&[
        ("Foo", "2024-01-15T10:00:00Z"),
        ("Foo", "2024-01-16T10:00:00Z"),
    ]);
    let recs = read_state_current(&state).unwrap();
    let docs = vec![Some(manifest_doc("Foo")), Some(manifest_doc("Foo"))];
    let index = build_index(&recs, &docs, "https://h");
    assert_eq!(index.len(), 2);
    assert_eq!(index[0].internal_name, "Foo");
    assert_eq!(index[1].internal_name, "Foo");
    assert_eq!(index[0].last_update, 1705312800);
    assert_eq!(index[1].last_update, 1705399200);
}

#[test]
fn pre_epoch_build_time_rounds_toward_minus_infinity() {
    let state = state_doc(&[("Old", "1969-12-31T23:59:59.500Z")]);
    let recs = read_state_current(&state).unwrap();
    assert_eq!(recs[0].time_built_ms, -500);
    let index = build_index(&recs, &vec![Some(manifest_doc("Old"))], "https://h");
    assert_eq!(index[0].last_update, -1);
}

#[test]
fn serialized_index_is_an_array_in_order() {
    let state = state_doc(&[
        ("One", "2024-01-15T10:00:00Z"),
        ("Two", "2024-01-16T10:00:00Z"),
    ]);
    let recs = read_state_current(&state).unwrap();
    let docs = vec![Some(manifest_doc("One")), Some(manifest_doc("Two"))];
    let index = build_index(&recs, &docs, "https://h");
    let out = index_to_json(&index);
    let items = match out {
        Json::Arr(items) => items,
        other => panic!("expected an array, got {:?}", other),
    };
    assert_eq!(items.len(), 2);
    for (k, expected) in ["One", "Two"].iter().enumerate() {
        let fields = match &items[k] {
            Json::Obj(fields) => fields,
            other => panic!("expected an object, got {:?}", other),
        };
        let internal = fields.iter().find(|(key, _)| key == "InternalName").unwrap();
        assert_eq!(internal.1, Json::Str((*expected).to_string()));
        let channel = fields.iter().find(|(key, _)| key == "_Dip17Channel").unwrap();
        assert_eq!(channel.1, Json::Str("stable".to_string()));
    }
}
