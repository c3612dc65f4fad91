use geostorm_alert_service::models::{
    default_schema_version, non_empty_optional, SpaceWeatherAlert, UtcTimestamp,
    MAX_UTC_SECONDS, MIN_UTC_SECONDS,
};

fn timestamp(secs: i64, nanos: u32) -> UtcTimestamp {
    UtcTimestamp::from_unix(secs, nanos).expect("timestamp in range")
}

fn sample_alert(event_id: &str, schema_version: &str) -> SpaceWeatherAlert {
    SpaceWeatherAlert {
        schema_version: schema_version.to_string(),
        event_id: event_id.to_string(),
        activity_id: "2024-05-10T16:36:00-CME-001".to_string(),
        alert_level: "G4".to_string(),
        current_risk_level: Some("  high ".to_string()),
        forecast_risk_level: Some("   ".to_string()),
        risk_basis: None,
        esa_source_status: Some("ok".to_string()),
        esa_dataset_id: Some("\tswe-1\n".to_string()),
        esa_error: Some(String::new()),
        details: "Severe geomagnetic storm watch".to_string(),
        // 2024-05-10T17:00:00Z
        timestamp: timestamp(1_715_360_400, 0),
    }
}

#[test]
fn non_empty_optional_trims_and_drops_blank() {
    assert_eq!(non_empty_optional(None), None);
    assert_eq!(non_empty_optional(Some("")), None);
    assert_eq!(non_empty_optional(Some(" \t ")), None);
    assert_eq!(non_empty_optional(Some("  moderate ")), Some("moderate"));
    assert_eq!(non_empty_optional(Some("low")), Some("low"));
}

#[test]
fn optional_fields_are_trimmed() {
    let a = sample_alert("evt-1", "2");
    assert_eq!(a.current_risk_level(), Some("high"));
    assert_eq!(a.forecast_risk_level(), None);
    assert_eq!(a.risk_basis(), None);
    assert_eq!(a.esa_source_status(), Some("ok"));
    assert_eq!(a.esa_dataset_id(), Some("swe-1"));
    assert_eq!(a.esa_error(), None);
}

#[test]
fn default_schema_version_is_legacy() {
    assert_eq!(default_schema_version(), "legacy");
}

#[test]
fn given_event_id_is_kept() {
    let a = sample_alert(" evt-42 ", "2");
    assert_eq!(a.normalized_event_id(), " evt-42 ");
}

#[test]
fn blank_event_id_is_derived_from_activity_and_time() {
    let a = sample_alert("  ", "2");
    assert_eq!(
        a.normalized_event_id(),
        "legacy:2024-05-10T16:36:00-CME-001:2024-05-10T17:00:00+00:00"
    );
    let b = sample_alert("", "2");
    assert_eq!(b.normalized_event_id(), a.normalized_event_id());
}

#[test]
fn derived_event_id_shows_fractional_seconds() {
    let mut a = sample_alert("", "2");
    a.timestamp = timestamp(1_715_360_400, 250_000_000);
    assert_eq!(
        a.normalized_event_id(),
        "legacy:2024-05-10T16:36:00-CME-001:2024-05-10T17:00:00.250+00:00"
    );
}

#[test]
fn schema_version_is_normalized() {
    assert_eq!(sample_alert("e", "2").normalized_schema_version(), "2");
    assert_eq!(sample_alert("e", " ").normalized_schema_version(), "legacy");
    assert_eq!(sample_alert("e", "").normalized_schema_version(), "legacy");
}

#[test]
fn log_entry_holds_normalized_values() {
    let a = sample_alert("", "");
    let entry = a.log_entry();
    assert_eq!(entry.event_id, a.normalized_event_id());
    assert_eq!(entry.schema_version, "legacy");
    assert_eq!(entry.activity_id, a.activity_id);
    assert_eq!(entry.alert_level, "G4");
    assert_eq!(entry.details, a.details);
    assert_eq!(entry.timestamp.secs(), 1_715_360_400);
    assert_eq!(entry.timestamp.nanos(), 0);
}

#[test]
fn timestamp_rendering_matches_chrono() {
    for (secs, nanos) in [
        (0i64, 0u32),
        (-1, 0),
        (1_715_360_400, 123_456_789),
        (1_715_360_459, 1_500_000_000),
        (-86_400 * 365 * 3000, 7_000),
        (MIN_UTC_SECONDS, 0),
        (MAX_UTC_SECONDS, 999_999_999),
    ] {
        let expected = chrono::DateTime::<chrono::Utc>::from_timestamp(secs, nanos)
            .expect("chrono accepts")
            .to_rfc3339();
        assert_eq!(timestamp(secs, nanos).to_rfc3339(), expected);
    }
}

#[test]
fn timestamp_range_matches_chrono() {
    let cases = [
        (MIN_UTC_SECONDS, 0u32),
        (MIN_UTC_SECONDS - 1, 0),
        (MAX_UTC_SECONDS, 0),
        (MAX_UTC_SECONDS + 1, 0),
        (i64::MIN, 0),
        (i64::MAX, 0),
        (0, 999_999_999),
        (0, 1_000_000_000),
        (59, 1_000_000_000),
        (59, 1_999_999_999),
        (59, 2_000_000_000),
        (-1, 1_000_000_000),
        (-61, 1_500_000_000),
        (-60, 1_500_000_000),
        (1_715_360_459, 1_000_000_001),
        (0, u32::MAX),
    ];
    for (secs, nanos) in cases {
        let ours = UtcTimestamp::from_unix(secs, nanos);
        let theirs = chrono::DateTime::<chrono::Utc>::from_timestamp(secs, nanos);
        assert_eq!(ours.is_some(), theirs.is_some(), "secs {secs} nanos {nanos}");
        if let Some(t) = ours {
            assert_eq!(t.secs(), secs);
            assert_eq!(t.nanos(), nanos);
        }
    }
}

#[test]
fn normalized_identifiers_are_never_blank() {
    for (id, version) in [("", ""), (" \t", "\u{3000}"), ("evt", "3")] {
        let a = sample_alert(id, version);
        assert!(!a.normalized_event_id().trim().is_empty());
        assert!(!a.normalized_schema_version().trim().is_empty());
    }
}
