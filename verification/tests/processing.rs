use geostorm_alert_service::email::EmailSettings;
use geostorm_alert_service::models::{SpaceWeatherAlert, UtcTimestamp};
use geostorm_alert_service::processing::{
    AlertProcess, ProcessCommand, ProcessEvent, ProcessOutcome, ProcessStage,
};

fn flare_alert(event_id: &str) -> SpaceWeatherAlert {
    SpaceWeatherAlert {
        schema_version: "2".to_string(),
        event_id: event_id.to_string(),
        activity_id: "FLR-7".to_string(),
        alert_level: "R3".to_string(),
        current_risk_level: None,
        forecast_risk_level: None,
        risk_basis: None,
        esa_source_status: None,
        esa_dataset_id: None,
        esa_error: None,
        details: "X-class flare".to_string(),
        timestamp: UtcTimestamp::from_unix(0, 0).unwrap(),
    }
}

fn no_email() -> EmailSettings {
    EmailSettings {
        enabled: None,
        smtp_host: None,
        smtp_port: None,
        smtp_username: None,
        smtp_password: None,
        smtp_from: None,
        alert_email_to: None,
    }
}

fn feed(process: &mut AlertProcess, event: ProcessEvent) -> ProcessCommand {
    assert!(process.accepts(&event));
    process.step(event)
}

#[test]
fn start_asks_to_insert_the_log_row() {
    let (process, command) = AlertProcess::start(&flare_alert("evt-1"));
    assert_eq!(process.event_id, "evt-1");
    assert!(matches!(process.stage, ProcessStage::AwaitingInsert));
    assert!(matches!(command, ProcessCommand::InsertAlertLog { ref event_id } if event_id == "evt-1"));
}

#[test]
fn start_uses_the_normalized_event_id() {
    let (process, _) = AlertProcess::start(&flare_alert(" "));
    assert_eq!(process.event_id, "legacy:FLR-7:1970-01-01T00:00:00+00:00");
}

#[test]
fn new_alert_is_reported_and_recorded() {
    let (mut p, _) = AlertProcess::start(&flare_alert("evt-1"));
    assert!(matches!(feed(&mut p, ProcessEvent::LogInserted { inserted: true }), ProcessCommand::GenerateReport));
    let cmd = feed(
        &mut p,
        ProcessEvent::ReportWritten { report_path: "reports/evt-1.md".to_string(), email: no_email() },
    );
    match cmd {
        ProcessCommand::RecordResult { event_id, report_path, email_status, error_message } => {
            assert_eq!(event_id, "evt-1");
            assert_eq!(report_path.as_deref(), Some("reports/evt-1.md"));
            assert_eq!(email_status, "disabled");
            assert_eq!(error_message, None);
        }
        other => panic!("unexpected {other:?}"),
    }
    match feed(&mut p, ProcessEvent::ResultRecorded) {
        ProcessCommand::Finish { outcome: ProcessOutcome::Processed { report_path } } => {
            assert_eq!(report_path, "reports/evt-1.md")
        }
        other => panic!("unexpected {other:?}"),
    }
    assert!(p.is_finished());
    assert!(!p.accepts(&ProcessEvent::ResultRecorded));
}

#[test]
fn email_status_is_recorded_with_the_report() {
    let (mut p, _) = AlertProcess::start(&flare_alert("evt-1"));
    feed(&mut p, ProcessEvent::LogInserted { inserted: true });
    let mut email = no_email();
    email.enabled = Some("TRUE".to_string());
    match feed(&mut p, ProcessEvent::ReportWritten { report_path: "r".to_string(), email }) {
        ProcessCommand::RecordResult { email_status, .. } => assert_eq!(email_status, "not_configured"),
        other => panic!("unexpected {other:?}"),
    }
}

#[test]
fn already_reported_alert_is_a_duplicate() {
    let (mut p, _) = AlertProcess::start(&flare_alert("evt-1"));
    match feed(&mut p, ProcessEvent::LogInserted { inserted: false }) {
        ProcessCommand::FetchExistingReport { event_id } => assert_eq!(event_id, "evt-1"),
        other => panic!("unexpected {other:?}"),
    }
    let cmd = feed(
        &mut p,
        ProcessEvent::ExistingReport { recorded_path: Some("reports/old.md".to_string()) },
    );
    assert!(matches!(cmd, ProcessCommand::Finish { outcome: ProcessOutcome::Duplicate }));
    assert!(p.is_finished());
}

#[test]
fn logged_alert_without_report_is_processed_again() {
    let (mut p, _) = AlertProcess::start(&flare_alert("evt-1"));
    feed(&mut p, ProcessEvent::LogInserted { inserted: false });
    let cmd = feed(&mut p, ProcessEvent::ExistingReport { recorded_path: None });
    assert!(matches!(cmd, ProcessCommand::GenerateReport));
}

#[test]
fn report_failure_is_recorded_and_fails() {
    let (mut p, _) = AlertProcess::start(&flare_alert("evt-1"));
    feed(&mut p, ProcessEvent::LogInserted { inserted: true });
    match feed(&mut p, ProcessEvent::ReportFailed { error: "disk full".to_string() }) {
        ProcessCommand::RecordResult { event_id, report_path, email_status, error_message } => {
            assert_eq!(event_id, "evt-1");
            assert_eq!(report_path, None);
            assert_eq!(email_status, "disabled");
            assert_eq!(error_message.as_deref(), Some("disk full"));
        }
        other => panic!("unexpected {other:?}"),
    }
    match feed(&mut p, ProcessEvent::DatabaseFailed { error: "db down".to_string() }) {
        ProcessCommand::Finish { outcome: ProcessOutcome::Failed { error } } => {
            assert_eq!(error, "disk full")
        }
        other => panic!("unexpected {other:?}"),
    }
}

#[test]
fn report_failure_fails_after_recording() {
    let (mut p, _) = AlertProcess::start(&flare_alert("evt-1"));
    feed(&mut p, ProcessEvent::LogInserted { inserted: true });
    feed(&mut p, ProcessEvent::ReportFailed { error: "template".to_string() });
    match feed(&mut p, ProcessEvent::ResultRecorded) {
        ProcessCommand::Finish { outcome: ProcessOutcome::Failed { error } } => assert_eq!(error, "template"),
        other => panic!("unexpected {other:?}"),
    }
}

#[test]
fn database_failures_end_processing() {
    let (mut p, _) = AlertProcess::start(&flare_alert("evt-1"));
    match feed(&mut p, ProcessEvent::DatabaseFailed { error: "insert".to_string() }) {
        ProcessCommand::Finish { outcome: ProcessOutcome::Failed { error } } => assert_eq!(error, "insert"),
        other => panic!("unexpected {other:?}"),
    }

    let (mut p, _) = AlertProcess::start(&flare_alert("evt-1"));
    feed(&mut p, ProcessEvent::LogInserted { inserted: false });
    match feed(&mut p, ProcessEvent::DatabaseFailed { error: "select".to_string() }) {
        ProcessCommand::Finish { outcome: ProcessOutcome::Failed { error } } => assert_eq!(error, "select"),
        other => panic!("unexpected {other:?}"),
    }

    let (mut p, _) = AlertProcess::start(&flare_alert("evt-1"));
    feed(&mut p, ProcessEvent::LogInserted { inserted: true });
    feed(&mut p, ProcessEvent::ReportWritten { report_path: "r".to_string(), email: no_email() });
    match feed(&mut p, ProcessEvent::DatabaseFailed { error: "update".to_string() }) {
        ProcessCommand::Finish { outcome: ProcessOutcome::Failed { error } } => assert_eq!(error, "update"),
        other => panic!("unexpected {other:?}"),
    }
}

#[test]
fn answers_out_of_turn_are_not_accepted() {
    let (p, _) = AlertProcess::start(&flare_alert("evt-1"));
    assert!(!p.accepts(&ProcessEvent::ResultRecorded));
    assert!(!p.accepts(&ProcessEvent::ExistingReport { recorded_path: None }));
    assert!(!p.accepts(&ProcessEvent::ReportFailed { error: String::new() }));
    assert!(p.accepts(&ProcessEvent::LogInserted { inserted: true }));
}
