//! The alert message that the service consumes, and the values derived from it.

use crate::text::{is_blank, is_blank_spec, is_whitespace_char, lemma_trim_is_middle, lemma_trim_bounds, lemma_trim_empty_iff_blank, lemma_trim_idempotent, trim, trim_spec};
use vstd::prelude::*;
use vstd::string::*;

verus! {

/// Earliest whole second, counted from the Unix epoch, that a UTC date-time can hold
/// (January 1 of year -262143, 00:00:00).
pub const MIN_UTC_SECONDS: i64 = -8334601228800;

/// Latest whole second, counted from the Unix epoch, that a UTC date-time can hold
/// (December 31 of year 262142, 23:59:59).
pub const MAX_UTC_SECONDS: i64 = 8210266876799;

/// Seconds and nanoseconds that name a UTC date-time: the seconds lie in the
/// representable range, and the nanoseconds are below one second, or below two
/// seconds on the last second of a minute, where they denote a leap second.
pub open spec fn utc_timestamp_in_range(secs: int, nanos: int) -> bool {
    &&& MIN_UTC_SECONDS <= secs <= MAX_UTC_SECONDS
    &&& 0 <= nanos
    &&& (nanos < 1_000_000_000 || (nanos < 2_000_000_000 && secs % 60 == 59))
}

/// The RFC 3339 rendering (`YYYY-MM-DDTHH:MM:SS[.fraction]+00:00`) of the UTC date-time
/// `secs` seconds and `nanos` nanoseconds after the Unix epoch.
pub uninterp spec fn rfc3339_utc_text(secs: int, nanos: int) -> Seq<char>;

/// chrono's `DateTime::<Utc>::from_timestamp(secs, nanos)`, rendered with
/// `DateTime::to_rfc3339`. Trusted: `from_timestamp` gives a date-time exactly on the
/// range that `utc_timestamp_in_range` states (chrono 0.4.45,
/// `DateTime::from_timestamp`, `NaiveDate::from_num_days_from_ce_opt` and
/// `NaiveTime::from_num_seconds_from_midnight_opt`), and the text is whatever
/// `to_rfc3339` writes for it, a function of the two arguments alone that is named,
/// not stated.
#[verifier::external_body]
fn utc_rfc3339(secs: i64, nanos: u32) -> (res: Option<String>)
    ensures
        res is Some <==> utc_timestamp_in_range(secs as int, nanos as int),
        res matches Some(text) ==> text@ == rfc3339_utc_text(secs as int, nanos as int),
{
    match chrono::DateTime::<chrono::Utc>::from_timestamp(secs, nanos) {
        Some(t) => Some(t.to_rfc3339()),
        None => None,
    }
}

/// A UTC date-time held as seconds and nanoseconds since the Unix epoch.
#[derive(Clone, Copy, Debug)]
pub struct UtcTimestamp {
    secs: i64,
    nanos: u32,
}

impl View for UtcTimestamp {
    /// Seconds and nanoseconds since the Unix epoch.
    type V = (int, int);

    closed spec fn view(&self) -> (int, int) {
        (self.secs as int, self.nanos as int)
    }
}

/// The seconds past the whole minute, counting minutes down from the epoch for times
/// before it, as `rem_euclid(60)` gives them.
fn seconds_past_minute(secs: i64) -> (res: u64)
    requires
        MIN_UTC_SECONDS <= secs <= MAX_UTC_SECONDS,
    ensures
        res == secs % 60,
{
    // a whole number of minutes, enough to make every time in range non-negative
    let shift: i64 = 8_400_000_000_000;
    let shifted = (secs + shift) as u64;
    proof {
        assert((secs + shift) % 60 == secs % 60) by {
            vstd::arithmetic::div_mod::lemma_mod_multiples_vanish(140_000_000_000, secs as int, 60);
        }
    }
    shifted % 60
}

impl UtcTimestamp {
    #[verifier::type_invariant]
    spec fn in_range(self) -> bool {
        utc_timestamp_in_range(self.secs as int, self.nanos as int)
    }

    /// The date-time `secs` seconds and `nanos` nanoseconds after the Unix epoch, or
    /// `None` where no UTC date-time is named by them.
    pub fn from_unix(secs: i64, nanos: u32) -> (res: Option<UtcTimestamp>)
        ensures
            res is Some <==> utc_timestamp_in_range(secs as int, nanos as int),
            res matches Some(t) ==> t@ == (secs as int, nanos as int),
    {
        if secs < MIN_UTC_SECONDS || secs > MAX_UTC_SECONDS {
            return None;
        }
        let last_second = seconds_past_minute(secs) == 59;
        if nanos < 1_000_000_000 || (nanos < 2_000_000_000 && last_second) {
            Some(UtcTimestamp { secs, nanos })
        } else {
            None
        }
    }

    /// Seconds since the Unix epoch.
    pub fn secs(&self) -> (res: i64)
        ensures
            res as int == self@.0,
            utc_timestamp_in_range(self@.0, self@.1),
    {
        proof {
            use_type_invariant(self);
        }
        self.secs
    }

    /// Nanoseconds past `secs`.
    pub fn nanos(&self) -> (res: u32)
        ensures
            res as int == self@.1,
            utc_timestamp_in_range(self@.0, self@.1),
    {
        proof {
            use_type_invariant(self);
        }
        self.nanos
    }

    /// The RFC 3339 text of this date-time.
    pub fn to_rfc3339(&self) -> (res: String)
        ensures
            res@ == rfc3339_utc_text(self@.0, self@.1),
    {
        proof {
            use_type_invariant(self);
        }
        match utc_rfc3339(self.secs, self.nanos) {
            Some(text) => text,
            None => String::new(),
        }
    }
}

/// The view of an optional owned text.
pub open spec fn opt_string_view(v: Option<String>) -> Option<Seq<char>> {
    match v {
        Some(s) => Some(s@),
        None => None,
    }
}

/// The view of an optional borrowed text.
pub open spec fn opt_str_view(v: Option<&str>) -> Option<Seq<char>> {
    match v {
        Some(s) => Some(s@),
        None => None,
    }
}

/// An optional text trimmed, where a text that trims to nothing counts as absent.
pub open spec fn non_empty_optional_spec(v: Option<Seq<char>>) -> Option<Seq<char>> {
    match v {
        Some(s) => if trim_spec(s).len() == 0 {
            None
        } else {
            Some(trim_spec(s))
        },
        None => None,
    }
}

/// `value` trimmed of surrounding whitespace, or `None` where nothing is left.
pub fn non_empty_optional(value: Option<&str>) -> (res: Option<&str>)
    ensures
        opt_str_view(res) == non_empty_optional_spec(opt_str_view(value)),
{
    match value {
        Some(inner) => {
            let trimmed = trim(inner);
            if trimmed.unicode_len() == 0 {
                None
            } else {
                Some(trimmed)
            }
        },
        None => None,
    }
}

fn as_deref(value: &Option<String>) -> (res: Option<&str>)
    ensures
        opt_str_view(res) == opt_string_view(*value),
{
    match value {
        Some(s) => Some(s.as_str()),
        None => None,
    }
}

/// The schema version that a message without one is taken to have.
pub open spec fn legacy_marker() -> Seq<char> {
    "legacy"@
}

/// The schema version given to an alert whose message names none.
pub fn default_schema_version() -> (res: String)
    ensures
        res@ == legacy_marker(),
        res@ == "legacy"@,
{
    String::from_str("legacy")
}

/// A space-weather alert as published on the alert queue.
#[derive(Debug)]
pub struct SpaceWeatherAlert {
    pub schema_version: String,
    pub event_id: String,
    pub activity_id: String,
    pub alert_level: String,
    pub current_risk_level: Option<String>,
    pub forecast_risk_level: Option<String>,
    pub risk_basis: Option<String>,
    pub esa_source_status: Option<String>,
    pub esa_dataset_id: Option<String>,
    pub esa_error: Option<String>,
    pub details: String,
    pub timestamp: UtcTimestamp,
}

/// The event identifier under which an alert is logged: its own where it names one,
/// else one made of the activity and the time of the alert.
pub open spec fn normalized_event_id_spec(
    event_id: Seq<char>,
    activity_id: Seq<char>,
    timestamp: (int, int),
) -> Seq<char> {
    if trim_spec(event_id).len() == 0 {
        "legacy:"@ + activity_id + ":"@ + rfc3339_utc_text(timestamp.0, timestamp.1)
    } else {
        event_id
    }
}

/// The schema version under which an alert is logged.
pub open spec fn normalized_schema_version_spec(schema_version: Seq<char>) -> Seq<char> {
    if trim_spec(schema_version).len() == 0 {
        legacy_marker()
    } else {
        schema_version
    }
}


/// The row written to the alert log for an alert.
#[derive(Debug)]
pub struct AlertLogEntry {
    pub event_id: String,
    pub schema_version: String,
    pub activity_id: String,
    pub alert_level: String,
    pub details: String,
    pub timestamp: UtcTimestamp,
}

/// What `non_empty_optional` keeps is never empty and has no surrounding whitespace:
/// trimming it again changes nothing.
pub proof fn lemma_non_empty_optional_trimmed(v: Option<Seq<char>>)
    ensures
        non_empty_optional_spec(v) matches Some(t) ==> t.len() > 0 && trim_spec(t) == t
            && !is_whitespace_char(t[0]) && !is_whitespace_char(t.last()),
{
    if let Some(s) = v {
        lemma_trim_idempotent(s);
        lemma_trim_bounds(s);
    }
}

/// An absent value stays absent, a blank one becomes absent, and any other value is
/// kept whole once trimmed: every character of its trimmed text, not a part of it.
pub proof fn lemma_non_empty_optional_keeps_trimmed(v: Option<Seq<char>>)
    ensures
        v is None ==> non_empty_optional_spec(v) is None,
        v matches Some(s) ==> (non_empty_optional_spec(v) is None <==> is_blank_spec(s)),
        v matches Some(s) ==> (!is_blank_spec(s) ==> non_empty_optional_spec(v) == Some(
            trim_spec(s),
        )),
{
    if let Some(s) = v {
        lemma_trim_empty_iff_blank(s);
    }
}

/// A value that is not blank is kept as the whole of its text between the leading and
/// the trailing whitespace: what is dropped before and after it is whitespace, and it
/// begins and ends with a character that is not. The result gives where it begins and
/// ends in `s`.
pub proof fn lemma_non_empty_optional_is_middle(s: Seq<char>) -> (r: (int, int))
    requires
        !is_blank_spec(s),
    ensures
        0 <= r.0 < r.1 <= s.len(),
        non_empty_optional_spec(Some(s)) == Some(s.subrange(r.0, r.1)),
        forall|k: int| 0 <= k < r.0 ==> is_whitespace_char(#[trigger] s[k]),
        forall|k: int| r.1 <= k < s.len() ==> is_whitespace_char(#[trigger] s[k]),
        !is_whitespace_char(s[r.0]),
        !is_whitespace_char(s[r.1 - 1]),
{
    lemma_trim_empty_iff_blank(s);
    lemma_trim_is_middle(s)
}

/// An event identifier that is not blank is the one an alert is logged under, unchanged;
/// a blank one is replaced by `legacy:`, the activity, `:` and the RFC 3339 text of the
/// alert's time.
pub proof fn lemma_normalized_event_id_kept(
    event_id: Seq<char>,
    activity_id: Seq<char>,
    timestamp: (int, int),
)
    ensures
        !is_blank_spec(event_id) ==> normalized_event_id_spec(event_id, activity_id, timestamp)
            == event_id,
        is_blank_spec(event_id) ==> normalized_event_id_spec(event_id, activity_id, timestamp)
            == "legacy:"@ + activity_id + ":"@ + rfc3339_utc_text(timestamp.0, timestamp.1),
{
    lemma_trim_empty_iff_blank(event_id);
}

/// A schema version that is not blank is kept unchanged; a blank one becomes `legacy`.
pub proof fn lemma_normalized_schema_version_kept(schema_version: Seq<char>)
    ensures
        !is_blank_spec(schema_version) ==> normalized_schema_version_spec(schema_version)
            == schema_version,
        is_blank_spec(schema_version) ==> normalized_schema_version_spec(schema_version)
            == "legacy"@,
{
    lemma_trim_empty_iff_blank(schema_version);
}

/// Every alert is logged under an event identifier and a schema version that are not
/// blank: a blank one is replaced by one that begins with `legacy`.
pub proof fn lemma_normalized_not_blank(
    event_id: Seq<char>,
    activity_id: Seq<char>,
    timestamp: (int, int),
    schema_version: Seq<char>,
)
    ensures
        trim_spec(normalized_event_id_spec(event_id, activity_id, timestamp)).len() > 0,
        trim_spec(normalized_schema_version_spec(schema_version)).len() > 0,
{
    reveal_strlit("legacy:");
    reveal_strlit("legacy");
    let id = normalized_event_id_spec(event_id, activity_id, timestamp);
    lemma_trim_empty_iff_blank(id);
    lemma_trim_empty_iff_blank(event_id);
    if trim_spec(event_id).len() == 0 {
        assert(id[0] == 'l');
        assert(!is_whitespace_char(id[0]));
    }
    let version = normalized_schema_version_spec(schema_version);
    lemma_trim_empty_iff_blank(version);
    lemma_trim_empty_iff_blank(schema_version);
    if trim_spec(schema_version).len() == 0 {
        assert(version[0] == 'l');
        assert(!is_whitespace_char(version[0]));
    }
}

impl SpaceWeatherAlert {
    pub fn current_risk_level(&self) -> (res: Option<&str>)
        ensures
            opt_str_view(res) == non_empty_optional_spec(
                opt_string_view(self.current_risk_level),
            ),
    {
        non_empty_optional(as_deref(&self.current_risk_level))
    }

    pub fn forecast_risk_level(&self) -> (res: Option<&str>)
        ensures
            opt_str_view(res) == non_empty_optional_spec(
                opt_string_view(self.forecast_risk_level),
            ),
    {
        non_empty_optional(as_deref(&self.forecast_risk_level))
    }

    pub fn risk_basis(&self) -> (res: Option<&str>)
        ensures
            opt_str_view(res) == non_empty_optional_spec(opt_string_view(self.risk_basis)),
    {
        non_empty_optional(as_deref(&self.risk_basis))
    }

    pub fn esa_source_status(&self) -> (res: Option<&str>)
        ensures
            opt_str_view(res) == non_empty_optional_spec(
                opt_string_view(self.esa_source_status),
            ),
    {
        non_empty_optional(as_deref(&self.esa_source_status))
    }

    pub fn esa_dataset_id(&self) -> (res: Option<&str>)
        ensures
            opt_str_view(res) == non_empty_optional_spec(opt_string_view(self.esa_dataset_id)),
    {
        non_empty_optional(as_deref(&self.esa_dataset_id))
    }

    pub fn esa_error(&self) -> (res: Option<&str>)
        ensures
            opt_str_view(res) == non_empty_optional_spec(opt_string_view(self.esa_error)),
    {
        non_empty_optional(as_deref(&self.esa_error))
    }

    pub fn normalized_event_id(&self) -> (res: String)
        ensures
            res@ == normalized_event_id_spec(
                self.event_id@,
                self.activity_id@,
                self.timestamp@,
            ),
    {
        if is_blank(self.event_id.as_str()) {
            let mut id = String::from_str("legacy:");
            id.append(self.activity_id.as_str());
            id.append(":");
            let time = self.timestamp.to_rfc3339();
            id.append(time.as_str());
            id
        } else {
            self.event_id.clone()
        }
    }

    /// The log row for this alert: its normalised event identifier and schema version,
    /// with its activity, level, details and time as they are.
    pub fn log_entry(&self) -> (res: AlertLogEntry)
        ensures
            res.event_id@ == normalized_event_id_spec(
                self.event_id@,
                self.activity_id@,
                self.timestamp@,
            ),
            res.schema_version@ == normalized_schema_version_spec(self.schema_version@),
            res.activity_id@ == self.activity_id@,
            res.alert_level@ == self.alert_level@,
            res.details@ == self.details@,
            res.timestamp@ == self.timestamp@,
    {
        AlertLogEntry {
            event_id: self.normalized_event_id(),
            schema_version: self.normalized_schema_version(),
            activity_id: self.activity_id.clone(),
            alert_level: self.alert_level.clone(),
            details: self.details.clone(),
            timestamp: self.timestamp,
        }
    }

    pub fn normalized_schema_version(&self) -> (res: String)
        ensures
            res@ == normalized_schema_version_spec(self.schema_version@),
    {
        if is_blank(self.schema_version.as_str()) {
            default_schema_version()
        } else {
            self.schema_version.clone()
        }
    }
}

} // verus!
