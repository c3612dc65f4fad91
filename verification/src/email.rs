//! Whether alert e-mail is sent, decided from the service's settings.

use crate::models::opt_string_view;
use crate::text::{eq_ignore_ascii_case, eq_ignore_ascii_case_spec};
use vstd::prelude::*;
use vstd::string::*;

verus! {

/// Name of the setting that switches alert e-mail on.
pub const EMAIL_ENABLED_VAR: &'static str = "EMAIL_ENABLED";

/// Names of the settings that e-mail needs, in the order of `EmailSettings`.
pub const SMTP_HOST_VAR: &'static str = "SMTP_HOST";
pub const SMTP_PORT_VAR: &'static str = "SMTP_PORT";
pub const SMTP_USERNAME_VAR: &'static str = "SMTP_USERNAME";
pub const SMTP_PASSWORD_VAR: &'static str = "SMTP_PASSWORD";
pub const SMTP_FROM_VAR: &'static str = "SMTP_FROM";
pub const ALERT_EMAIL_TO_VAR: &'static str = "ALERT_EMAIL_TO";

/// The e-mail settings as read from the environment; `None` where a variable is not
/// set or does not hold Unicode text.
#[derive(Debug)]
pub struct EmailSettings {
    pub enabled: Option<String>,
    pub smtp_host: Option<String>,
    pub smtp_port: Option<String>,
    pub smtp_username: Option<String>,
    pub smtp_password: Option<String>,
    pub smtp_from: Option<String>,
    pub alert_email_to: Option<String>,
}

/// A setting that is present and not empty.
pub open spec fn is_configured(v: Option<Seq<char>>) -> bool {
    v matches Some(s) && s.len() > 0
}

/// E-mail is switched on: the switch reads `true`, in any ASCII case.
pub open spec fn email_enabled_spec(settings: EmailSettings) -> bool {
    opt_string_view(settings.enabled) matches Some(v) && eq_ignore_ascii_case_spec(v, "true"@)
}

/// Every setting that e-mail needs is present and not empty.
pub open spec fn email_configured_spec(settings: EmailSettings) -> bool {
    &&& is_configured(opt_string_view(settings.smtp_host))
    &&& is_configured(opt_string_view(settings.smtp_port))
    &&& is_configured(opt_string_view(settings.smtp_username))
    &&& is_configured(opt_string_view(settings.smtp_password))
    &&& is_configured(opt_string_view(settings.smtp_from))
    &&& is_configured(opt_string_view(settings.alert_email_to))
}

/// The e-mail status recorded with a processed alert.
pub open spec fn email_status_spec(settings: EmailSettings) -> Seq<char> {
    if email_enabled_spec(settings) {
        if email_configured_spec(settings) {
            "not_implemented"@
        } else {
            "not_configured"@
        }
    } else {
        "disabled"@
    }
}

/// The switch reads `true` exactly when it is four characters long and spells `true`
/// with each letter in either case (code points 0x74/0x54, 0x72/0x52, 0x75/0x55,
/// 0x65/0x45).
pub proof fn lemma_switch_spelling(v: Seq<char>)
    ensures
        eq_ignore_ascii_case_spec(v, "true"@) <==> v.len() == 4 && (v[0] as u32 == 0x74
            || v[0] as u32 == 0x54) && (v[1] as u32 == 0x72 || v[1] as u32 == 0x52) && (v[2] as u32
            == 0x75 || v[2] as u32 == 0x55) && (v[3] as u32 == 0x65 || v[3] as u32 == 0x45),
{
    reveal_strlit("true");
    let t = "true"@;
    assert(t.len() == 4);
    assert(t[0] as u32 == 0x74 && t[1] as u32 == 0x72 && t[2] as u32 == 0x75 && t[3] as u32 == 0x65);
}

/// With the switch absent, or reading anything but `true` in some ASCII case, e-mail is
/// `disabled`, whatever the other settings hold.
pub proof fn lemma_email_disabled_when_switched_off(settings: EmailSettings)
    requires
        !(opt_string_view(settings.enabled) matches Some(v) && eq_ignore_ascii_case_spec(
            v,
            "true"@,
        )),
    ensures
        email_status_spec(settings) == "disabled"@,
{
}

/// With the switch on and every setting that e-mail needs present and not empty, the
/// status is `not_implemented`.
pub proof fn lemma_email_not_implemented_when_complete(settings: EmailSettings)
    requires
        opt_string_view(settings.enabled) matches Some(v) && eq_ignore_ascii_case_spec(
            v,
            "true"@,
        ),
        settings.smtp_host matches Some(x) && x@.len() > 0,
        settings.smtp_port matches Some(x) && x@.len() > 0,
        settings.smtp_username matches Some(x) && x@.len() > 0,
        settings.smtp_password matches Some(x) && x@.len() > 0,
        settings.smtp_from matches Some(x) && x@.len() > 0,
        settings.alert_email_to matches Some(x) && x@.len() > 0,
    ensures
        email_status_spec(settings) == "not_implemented"@,
{
}

/// With the switch on, a SMTP host that is absent or empty makes the status
/// `not_configured`, whatever the other settings hold.
pub proof fn lemma_email_needs_smtp_host(settings: EmailSettings)
    requires
        opt_string_view(settings.enabled) matches Some(v) && eq_ignore_ascii_case_spec(
            v,
            "true"@,
        ),
        settings.smtp_host is None || opt_string_view(settings.smtp_host) == Some(Seq::<char>::empty()),
    ensures
        email_status_spec(settings) == "not_configured"@,
{
}

/// With the switch on, a SMTP port that is absent or empty makes the status
/// `not_configured`, whatever the other settings hold.
pub proof fn lemma_email_needs_smtp_port(settings: EmailSettings)
    requires
        opt_string_view(settings.enabled) matches Some(v) && eq_ignore_ascii_case_spec(
            v,
            "true"@,
        ),
        settings.smtp_port is None || opt_string_view(settings.smtp_port) == Some(Seq::<char>::empty()),
    ensures
        email_status_spec(settings) == "not_configured"@,
{
}

/// With the switch on, a SMTP user name that is absent or empty makes the status
/// `not_configured`, whatever the other settings hold.
pub proof fn lemma_email_needs_smtp_username(settings: EmailSettings)
    requires
        opt_string_view(settings.enabled) matches Some(v) && eq_ignore_ascii_case_spec(
            v,
            "true"@,
        ),
        settings.smtp_username is None || opt_string_view(settings.smtp_username) == Some(Seq::<char>::empty()),
    ensures
        email_status_spec(settings) == "not_configured"@,
{
}

/// With the switch on, a SMTP password that is absent or empty makes the status
/// `not_configured`, whatever the other settings hold.
pub proof fn lemma_email_needs_smtp_password(settings: EmailSettings)
    requires
        opt_string_view(settings.enabled) matches Some(v) && eq_ignore_ascii_case_spec(
            v,
            "true"@,
        ),
        settings.smtp_password is None || opt_string_view(settings.smtp_password) == Some(Seq::<char>::empty()),
    ensures
        email_status_spec(settings) == "not_configured"@,
{
}

/// With the switch on, a sender address that is absent or empty makes the status
/// `not_configured`, whatever the other settings hold.
pub proof fn lemma_email_needs_smtp_from(settings: EmailSettings)
    requires
        opt_string_view(settings.enabled) matches Some(v) && eq_ignore_ascii_case_spec(
            v,
            "true"@,
        ),
        settings.smtp_from is None || opt_string_view(settings.smtp_from) == Some(Seq::<char>::empty()),
    ensures
        email_status_spec(settings) == "not_configured"@,
{
}

/// With the switch on, a alert recipient that is absent or empty makes the status
/// `not_configured`, whatever the other settings hold.
pub proof fn lemma_email_needs_alert_email_to(settings: EmailSettings)
    requires
        opt_string_view(settings.enabled) matches Some(v) && eq_ignore_ascii_case_spec(
            v,
            "true"@,
        ),
        settings.alert_email_to is None || opt_string_view(settings.alert_email_to) == Some(Seq::<char>::empty()),
    ensures
        email_status_spec(settings) == "not_configured"@,
{
}

fn configured(v: &Option<String>) -> (res: bool)
    ensures
        res == is_configured(opt_string_view(*v)),
{
    match v {
        Some(s) => s.as_str().unicode_len() > 0,
        None => false,
    }
}

/// `disabled` unless e-mail is switched on; then `not_implemented` where every
/// setting it needs is given, else `not_configured`.
pub fn email_status(settings: &EmailSettings) -> (res: String)
    ensures
        res@ == email_status_spec(*settings),
{
    let enabled = match &settings.enabled {
        Some(value) => eq_ignore_ascii_case(value.as_str(), "true"),
        None => false,
    };
    if enabled {
        if configured(&settings.smtp_host) && configured(&settings.smtp_port) && configured(
            &settings.smtp_username,
        ) && configured(&settings.smtp_password) && configured(&settings.smtp_from)
            && configured(&settings.alert_email_to) {
            String::from_str("not_implemented")
        } else {
            String::from_str("not_configured")
        }
    } else {
        String::from_str("disabled")
    }
}

} // verus!
