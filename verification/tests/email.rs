use geostorm_alert_service::email::{email_status, EmailSettings};

fn settings(enabled: Option<&str>, all_set: bool) -> EmailSettings {
    let v = |s: &str| if all_set { Some(s.to_string()) } else { None };
    EmailSettings {
        enabled: enabled.map(|s| s.to_string()),
        smtp_host: v("smtp.example.org"),
        smtp_port: v("587"),
        smtp_username: v("alerts"),
        smtp_password: v("SECRET-REDACTED"),
        smtp_from: v("alerts@example.org"),
        alert_email_to: v("ops@example.org"),
    }
}

#[test]
fn email_disabled_without_switch() {
    assert_eq!(email_status(&settings(None, true)), "disabled");
    assert_eq!(email_status(&settings(Some("false"), true)), "disabled");
    assert_eq!(email_status(&settings(Some("1"), true)), "disabled");
    assert_eq!(email_status(&settings(Some(" true"), true)), "disabled");
    assert_eq!(email_status(&settings(Some(""), true)), "disabled");
}

#[test]
fn email_switch_ignores_ascii_case() {
    assert_eq!(email_status(&settings(Some("TRUE"), true)), "not_implemented");
    assert_eq!(email_status(&settings(Some("True"), true)), "not_implemented");
    assert_eq!(email_status(&settings(Some("true"), true)), "not_implemented");
}

#[test]
fn email_not_configured_when_a_setting_is_missing_or_empty() {
    assert_eq!(email_status(&settings(Some("true"), false)), "not_configured");
    let mut s = settings(Some("true"), true);
    s.smtp_password = Some(String::new());
    assert_eq!(email_status(&s), "not_configured");
    let mut s = settings(Some("true"), true);
    s.alert_email_to = None;
    assert_eq!(email_status(&s), "not_configured");
    let mut s = settings(Some("true"), true);
    s.smtp_port = Some(" ".to_string());
    assert_eq!(email_status(&s), "not_implemented");
}
