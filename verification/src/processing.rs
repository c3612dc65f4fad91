//! The processing of one alert, as a machine that decides each database and report
//! operation from the answer to the one before.
//!
//! The machine starts by asking for the alert's log row to be inserted. An alert whose
//! row was there already is looked up: where a report was recorded for it, the alert
//! is a duplicate and nothing more is done; otherwise it is processed again. A report is
//! then written, and the result is recorded against the event, on failure as on success.

use crate::email::{email_status, email_status_spec, EmailSettings};
use crate::models::{normalized_event_id_spec, opt_string_view, SpaceWeatherAlert};
use vstd::prelude::*;
use vstd::string::*;

verus! {

/// How processing an alert ended.
#[derive(Debug)]
pub enum ProcessOutcome {
    /// A report was written and recorded; the text is its path.
    Processed { report_path: String },
    /// The alert's event had been logged before and already has a report.
    Duplicate,
    /// An operation failed; the text is its error.
    Failed { error: String },
}

/// An operation that the machine asks for.
#[derive(Debug)]
pub enum ProcessCommand {
    /// Insert the alert's log row unless one exists for its event.
    InsertAlertLog { event_id: String },
    /// Look up the report path recorded for the event, if there is one.
    FetchExistingReport { event_id: String },
    /// Write the alert's report.
    GenerateReport,
    /// Record the result of processing against the event.
    RecordResult {
        event_id: String,
        report_path: Option<String>,
        email_status: String,
        error_message: Option<String>,
    },
    /// Processing is over.
    Finish { outcome: ProcessOutcome },
}

/// The answer to the last operation asked for.
#[derive(Debug)]
pub enum ProcessEvent {
    /// The log row was inserted (`true`) or one existed already (`false`).
    LogInserted { inserted: bool },
    /// The report path recorded for the event, if any.
    ExistingReport { recorded_path: Option<String> },
    /// The report was written at `report_path`; `email` holds the e-mail settings at
    /// that moment.
    ReportWritten { report_path: String, email: EmailSettings },
    /// Writing the report failed with `error`.
    ReportFailed { error: String },
    /// The result was recorded.
    ResultRecorded,
    /// The database operation failed with `error`.
    DatabaseFailed { error: String },
}

/// Where the machine stands.
#[derive(Debug)]
pub enum ProcessStage {
    AwaitingInsert,
    AwaitingExistingReport,
    AwaitingReport,
    RecordingFailure { error: String },
    RecordingSuccess { report_path: String },
    Finished,
}

/// The processing of one alert, under its normalised event identifier.
#[derive(Debug)]
pub struct AlertProcess {
    pub event_id: String,
    pub stage: ProcessStage,
}

/// Mathematical model of `ProcessOutcome`.
pub enum OutcomeModel {
    Processed(Seq<char>),
    Duplicate,
    Failed(Seq<char>),
}

/// Mathematical model of `ProcessCommand`.
pub enum CommandModel {
    InsertAlertLog(Seq<char>),
    FetchExistingReport(Seq<char>),
    GenerateReport,
    RecordResult {
        event_id: Seq<char>,
        report_path: Option<Seq<char>>,
        email_status: Seq<char>,
        error_message: Option<Seq<char>>,
    },
    Finish(OutcomeModel),
}

/// Mathematical model of `ProcessEvent`: of the e-mail settings only the status that
/// they give counts.
pub enum EventModel {
    LogInserted(bool),
    ExistingReport(Option<Seq<char>>),
    ReportWritten { report_path: Seq<char>, email_status: Seq<char> },
    ReportFailed(Seq<char>),
    ResultRecorded,
    DatabaseFailed(Seq<char>),
}

/// Mathematical model of `ProcessStage`.
pub enum StageModel {
    AwaitingInsert,
    AwaitingExistingReport,
    AwaitingReport,
    RecordingFailure(Seq<char>),
    RecordingSuccess(Seq<char>),
    Finished,
}

impl View for ProcessOutcome {
    type V = OutcomeModel;

    open spec fn view(&self) -> OutcomeModel {
        match self {
            ProcessOutcome::Processed { report_path } => OutcomeModel::Processed(report_path@),
            ProcessOutcome::Duplicate => OutcomeModel::Duplicate,
            ProcessOutcome::Failed { error } => OutcomeModel::Failed(error@),
        }
    }
}

impl View for ProcessCommand {
    type V = CommandModel;

    open spec fn view(&self) -> CommandModel {
        match self {
            ProcessCommand::InsertAlertLog { event_id } => CommandModel::InsertAlertLog(event_id@),
            ProcessCommand::FetchExistingReport { event_id } => CommandModel::FetchExistingReport(
                event_id@,
            ),
            ProcessCommand::GenerateReport => CommandModel::GenerateReport,
            ProcessCommand::RecordResult { event_id, report_path, email_status, error_message } =>
            CommandModel::RecordResult {
                event_id: event_id@,
                report_path: opt_string_view(*report_path),
                email_status: email_status@,
                error_message: opt_string_view(*error_message),
            },
            ProcessCommand::Finish { outcome } => CommandModel::Finish(outcome@),
        }
    }
}

impl View for ProcessEvent {
    type V = EventModel;

    open spec fn view(&self) -> EventModel {
        match self {
            ProcessEvent::LogInserted { inserted } => EventModel::LogInserted(*inserted),
            ProcessEvent::ExistingReport { recorded_path } => EventModel::ExistingReport(
                opt_string_view(*recorded_path),
            ),
            ProcessEvent::ReportWritten { report_path, email } => EventModel::ReportWritten {
                report_path: report_path@,
                email_status: email_status_spec(*email),
            },
            ProcessEvent::ReportFailed { error } => EventModel::ReportFailed(error@),
            ProcessEvent::ResultRecorded => EventModel::ResultRecorded,
            ProcessEvent::DatabaseFailed { error } => EventModel::DatabaseFailed(error@),
        }
    }
}

impl View for ProcessStage {
    type V = StageModel;

    open spec fn view(&self) -> StageModel {
        match self {
            ProcessStage::AwaitingInsert => StageModel::AwaitingInsert,
            ProcessStage::AwaitingExistingReport => StageModel::AwaitingExistingReport,
            ProcessStage::AwaitingReport => StageModel::AwaitingReport,
            ProcessStage::RecordingFailure { error } => StageModel::RecordingFailure(error@),
            ProcessStage::RecordingSuccess { report_path } => StageModel::RecordingSuccess(
                report_path@,
            ),
            ProcessStage::Finished => StageModel::Finished,
        }
    }
}

/// The e-mail status recorded with a report that could not be written.
pub open spec fn failure_email_status() -> Seq<char> {
    "disabled"@
}

/// The recording of a written report at `report_path`.
pub open spec fn success_record(
    event_id: Seq<char>,
    report_path: Seq<char>,
    email_status: Seq<char>,
) -> CommandModel {
    CommandModel::RecordResult {
        event_id,
        report_path: Some(report_path),
        email_status,
        error_message: None,
    }
}

/// The recording of a report that could not be written.
pub open spec fn failure_record(event_id: Seq<char>, error: Seq<char>) -> CommandModel {
    CommandModel::RecordResult {
        event_id,
        report_path: None,
        email_status: failure_email_status(),
        error_message: Some(error),
    }
}

/// The next stage and the operation asked for, when `event` answers the operation of
/// `stage`; `None` when it does not.
pub open spec fn transition(event_id: Seq<char>, stage: StageModel, event: EventModel) -> Option<
    (StageModel, CommandModel),
> {
    match stage {
        StageModel::AwaitingInsert => match event {
            EventModel::LogInserted(true) => Some(
                (StageModel::AwaitingReport, CommandModel::GenerateReport),
            ),
            EventModel::LogInserted(false) => Some(
                (StageModel::AwaitingExistingReport, CommandModel::FetchExistingReport(event_id)),
            ),
            EventModel::DatabaseFailed(e) => Some(
                (StageModel::Finished, CommandModel::Finish(OutcomeModel::Failed(e))),
            ),
            _ => None,
        },
        StageModel::AwaitingExistingReport => match event {
            EventModel::ExistingReport(Some(_)) => Some(
                (StageModel::Finished, CommandModel::Finish(OutcomeModel::Duplicate)),
            ),
            EventModel::ExistingReport(None) => Some(
                (StageModel::AwaitingReport, CommandModel::GenerateReport),
            ),
            EventModel::DatabaseFailed(e) => Some(
                (StageModel::Finished, CommandModel::Finish(OutcomeModel::Failed(e))),
            ),
            _ => None,
        },
        StageModel::AwaitingReport => match event {
            EventModel::ReportWritten { report_path, email_status } => Some(
                (
                    StageModel::RecordingSuccess(report_path),
                    success_record(event_id, report_path, email_status),
                ),
            ),
            EventModel::ReportFailed(e) => Some(
                (
                    StageModel::RecordingFailure(e),
                    failure_record(event_id, e),
                ),
            ),
            _ => None,
        },
        StageModel::RecordingFailure(e) => match event {
            EventModel::ResultRecorded => Some(
                (StageModel::Finished, CommandModel::Finish(OutcomeModel::Failed(e))),
            ),
            EventModel::DatabaseFailed(_) => Some(
                (StageModel::Finished, CommandModel::Finish(OutcomeModel::Failed(e))),
            ),
            _ => None,
        },
        StageModel::RecordingSuccess(p) => match event {
            EventModel::ResultRecorded => Some(
                (StageModel::Finished, CommandModel::Finish(OutcomeModel::Processed(p))),
            ),
            EventModel::DatabaseFailed(e) => Some(
                (StageModel::Finished, CommandModel::Finish(OutcomeModel::Failed(e))),
            ),
            _ => None,
        },
        StageModel::Finished => None,
    }
}


/// The stage reached and the operations asked for when `events` answer, one after the
/// other, the operations of a process under `event_id` that stands at `stage`; `None`
/// where one of them does not answer the operation asked for.
pub open spec fn replay(event_id: Seq<char>, stage: StageModel, events: Seq<EventModel>) -> Option<
    (StageModel, Seq<CommandModel>),
>
    decreases events.len(),
{
    if events.len() == 0 {
        Some((stage, Seq::empty()))
    } else {
        match transition(event_id, stage, events[0]) {
            Some((next, command)) => match replay(event_id, next, events.drop_first()) {
                Some((last, commands)) => Some((last, seq![command] + commands)),
                None => None,
            },
            None => None,
        }
    }
}

/// The most answers that a process at `stage` can still take.
pub open spec fn remaining_steps(stage: StageModel) -> nat {
    match stage {
        StageModel::AwaitingInsert => 4,
        StageModel::AwaitingExistingReport => 3,
        StageModel::AwaitingReport => 2,
        StageModel::RecordingFailure(_) => 1,
        StageModel::RecordingSuccess(_) => 1,
        StageModel::Finished => 0,
    }
}

/// Each answer brings processing closer to its end, and processing ends exactly when
/// the machine asks to finish.
pub proof fn lemma_step_progress(event_id: Seq<char>, stage: StageModel, event: EventModel)
    requires
        transition(event_id, stage, event) is Some,
    ensures
        ({
            let (next, command) = transition(event_id, stage, event)->0;
            &&& remaining_steps(next) < remaining_steps(stage)
            &&& (command is Finish <==> next == StageModel::Finished)
        }),
{
}

/// Processing an alert takes at most four answers: every run of answers that the
/// machine takes is no longer than the steps left at its stage, and asks for one
/// operation per answer.
pub proof fn lemma_run_bounded(event_id: Seq<char>, stage: StageModel, events: Seq<EventModel>)
    requires
        replay(event_id, stage, events) is Some,
    ensures
        events.len() <= remaining_steps(stage),
        replay(event_id, stage, events).unwrap().1.len() == events.len(),
    decreases events.len(),
{
    if events.len() > 0 {
        let (next, _) = transition(event_id, stage, events[0])->0;
        lemma_step_progress(event_id, stage, events[0]);
        lemma_run_bounded(event_id, next, events.drop_first());
    }
}

/// No answer leads back to the start.
proof fn lemma_start_not_reentered(event_id: Seq<char>, stage: StageModel, event: EventModel)
    requires
        transition(event_id, stage, event) is Some,
    ensures
        transition(event_id, stage, event).unwrap().0 != StageModel::AwaitingInsert,
{
}

proof fn lemma_seq_cons_index(c: CommandModel, cs: Seq<CommandModel>, i: int)
    requires
        0 <= i < cs.len() + 1,
    ensures
        (seq![c] + cs)[i] == if i == 0 {
            c
        } else {
            cs[i - 1]
        },
{
}

/// An alert is a duplicate exactly when its log row existed already and a report is
/// recorded for its event: from any stage, the machine asks to finish as a duplicate
/// only as the answer to the look-up of a recorded report, and that look-up is asked
/// for only when the log row was not inserted.
pub proof fn lemma_duplicate_only_when_reported(
    event_id: Seq<char>,
    events: Seq<EventModel>,
    i: int,
)
    requires
        replay(event_id, StageModel::AwaitingInsert, events) is Some,
        0 <= i < events.len(),
        replay(event_id, StageModel::AwaitingInsert, events).unwrap().1[i] == CommandModel::Finish(
            OutcomeModel::Duplicate,
        ),
    ensures
        i == 1,
        events[0] == EventModel::LogInserted(false),
        events[1] matches EventModel::ExistingReport(Some(_)),
{
    lemma_duplicate_inner(event_id, StageModel::AwaitingInsert, events, i);
}

proof fn lemma_duplicate_inner(
    event_id: Seq<char>,
    stage: StageModel,
    events: Seq<EventModel>,
    i: int,
)
    requires
        replay(event_id, stage, events) is Some,
        0 <= i < events.len(),
        replay(event_id, stage, events).unwrap().1[i] == CommandModel::Finish(OutcomeModel::Duplicate),
    ensures
        stage == StageModel::AwaitingInsert ==> i == 1 && events[0] == EventModel::LogInserted(
            false,
        ) && events[1] matches EventModel::ExistingReport(Some(_)),
        stage == StageModel::AwaitingExistingReport ==> i == 0 && events[0] matches EventModel::ExistingReport(Some(_)),
        stage == StageModel::AwaitingInsert || stage == StageModel::AwaitingExistingReport,
    decreases events.len(),
{
    let (next, command) = transition(event_id, stage, events[0])->0;
    let rest = replay(event_id, next, events.drop_first()).unwrap().1;
    lemma_run_bounded(event_id, next, events.drop_first());
    lemma_seq_cons_index(command, rest, i);
    if i > 0 {
        assert(events.drop_first()[i - 1] == events[i]);
        lemma_duplicate_inner(event_id, next, events.drop_first(), i - 1);
        lemma_start_not_reentered(event_id, stage, events[0]);
        assert(events.drop_first()[0] == events[1]);
    }
}

/// A report is written only for an alert whose log row was newly inserted, or whose
/// event has no report recorded: the machine asks for a report only as the answer to
/// those two.
pub proof fn lemma_report_only_when_not_reported(
    event_id: Seq<char>,
    events: Seq<EventModel>,
    i: int,
)
    requires
        replay(event_id, StageModel::AwaitingInsert, events) is Some,
        0 <= i < events.len(),
        replay(event_id, StageModel::AwaitingInsert, events).unwrap().1[i] == CommandModel::GenerateReport,
    ensures
        (i == 0 && events[0] == EventModel::LogInserted(true)) || (i == 1 && events[0]
            == EventModel::LogInserted(false) && events[1] == EventModel::ExistingReport(None)),
{
    lemma_report_inner(event_id, StageModel::AwaitingInsert, events, i);
}

proof fn lemma_report_inner(event_id: Seq<char>, stage: StageModel, events: Seq<EventModel>, i: int)
    requires
        replay(event_id, stage, events) is Some,
        0 <= i < events.len(),
        replay(event_id, stage, events).unwrap().1[i] == CommandModel::GenerateReport,
    ensures
        stage == StageModel::AwaitingInsert ==> (i == 0 && events[0] == EventModel::LogInserted(
            true,
        )) || (i == 1 && events[0] == EventModel::LogInserted(false) && events[1]
            == EventModel::ExistingReport(None)),
        stage == StageModel::AwaitingExistingReport ==> i == 0 && events[0]
            == EventModel::ExistingReport(None),
        stage == StageModel::AwaitingInsert || stage == StageModel::AwaitingExistingReport,
    decreases events.len(),
{
    let (next, command) = transition(event_id, stage, events[0])->0;
    let rest = replay(event_id, next, events.drop_first()).unwrap().1;
    lemma_run_bounded(event_id, next, events.drop_first());
    lemma_seq_cons_index(command, rest, i);
    if i > 0 {
        assert(events.drop_first()[i - 1] == events[i]);
        lemma_report_inner(event_id, next, events.drop_first(), i - 1);
        lemma_start_not_reentered(event_id, stage, events[0]);
        assert(events.drop_first()[0] == events[1]);
    }
}

/// An alert is reported as processed only after its report was written and the
/// result recorded: the machine asks to finish with a report path only as the answer
/// to the recording, asked for just before, of that path with no error.
pub proof fn lemma_processed_only_when_recorded(
    event_id: Seq<char>,
    events: Seq<EventModel>,
    i: int,
    path: Seq<char>,
)
    requires
        replay(event_id, StageModel::AwaitingInsert, events) is Some,
        0 <= i < events.len(),
        replay(event_id, StageModel::AwaitingInsert, events).unwrap().1[i] == CommandModel::Finish(
            OutcomeModel::Processed(path),
        ),
    ensures
        i >= 1,
        events[i] == EventModel::ResultRecorded,
        events[i - 1] matches EventModel::ReportWritten { report_path, email_status } && report_path
            == path && replay(event_id, StageModel::AwaitingInsert, events).unwrap().1[i - 1]
            == success_record(event_id, path, email_status),
{
    lemma_processed_inner(event_id, StageModel::AwaitingInsert, events, i, path);
}

proof fn lemma_processed_inner(
    event_id: Seq<char>,
    stage: StageModel,
    events: Seq<EventModel>,
    i: int,
    path: Seq<char>,
)
    requires
        replay(event_id, stage, events) is Some,
        0 <= i < events.len(),
        replay(event_id, stage, events).unwrap().1[i] == CommandModel::Finish(
            OutcomeModel::Processed(path),
        ),
    ensures
        events[i] == EventModel::ResultRecorded,
        i == 0 ==> stage == StageModel::RecordingSuccess(path),
        i >= 1 ==> (events[i - 1] matches EventModel::ReportWritten { report_path, email_status }
            && report_path == path && replay(event_id, stage, events).unwrap().1[i - 1]
            == success_record(event_id, path, email_status)),
    decreases events.len(),
{
    let (next, command) = transition(event_id, stage, events[0])->0;
    let rest = replay(event_id, next, events.drop_first()).unwrap().1;
    lemma_run_bounded(event_id, next, events.drop_first());
    lemma_seq_cons_index(command, rest, i);
    if i > 0 {
        lemma_seq_cons_index(command, rest, i - 1);
        assert(events.drop_first()[i - 1] == events[i]);
        lemma_processed_inner(event_id, next, events.drop_first(), i - 1, path);
        if i >= 2 {
            assert(events.drop_first()[i - 2] == events[i - 1]);
        }
    }
}

/// A report that could not be written is recorded as such, with no path, the
/// `disabled` e-mail status and the error, and processing then fails with that error
/// whether or not the recording succeeded.
pub proof fn lemma_report_failure_recorded(
    event_id: Seq<char>,
    stage: StageModel,
    events: Seq<EventModel>,
    i: int,
    error: Seq<char>,
)
    requires
        replay(event_id, stage, events) is Some,
        0 <= i < events.len(),
        events[i] == EventModel::ReportFailed(error),
    ensures
        replay(event_id, stage, events).unwrap().1[i] == failure_record(event_id, error),
        events.len() <= i + 2,
        i + 1 < events.len() ==> replay(event_id, stage, events).unwrap().1[i + 1]
            == CommandModel::Finish(OutcomeModel::Failed(error)),
    decreases events.len(),
{
    let (next, command) = transition(event_id, stage, events[0])->0;
    let rest = replay(event_id, next, events.drop_first()).unwrap().1;
    lemma_run_bounded(event_id, next, events.drop_first());
    lemma_seq_cons_index(command, rest, i);
    if i + 1 < events.len() {
        lemma_seq_cons_index(command, rest, i + 1);
    }
    if i > 0 {
        assert(events.drop_first()[i - 1] == events[i]);
        lemma_report_failure_recorded(event_id, next, events.drop_first(), i - 1, error);
    } else if events.len() > 1 {
        let rest_events = events.drop_first();
        assert(rest_events.drop_first().len() == 0 || rest_events.len() > 1);
        let (last, c2) = transition(event_id, next, rest_events[0])->0;
        assert(rest == seq![c2] + replay(event_id, last, rest_events.drop_first()).unwrap().1);
        lemma_seq_cons_index(c2, replay(event_id, last, rest_events.drop_first()).unwrap().1, 0);
    }
}

/// An alert whose log row existed already is a duplicate when its event has a report
/// recorded, and is processed again, its report written anew, when it has none.
pub proof fn lemma_logged_event_outcomes(event_id: Seq<char>, recorded: Seq<char>)
    ensures
        replay(
            event_id,
            StageModel::AwaitingInsert,
            seq![EventModel::LogInserted(false), EventModel::ExistingReport(Some(recorded))],
        ) == Some(
            (
                StageModel::Finished,
                seq![
                    CommandModel::FetchExistingReport(event_id),
                    CommandModel::Finish(OutcomeModel::Duplicate),
                ],
            ),
        ),
        replay(
            event_id,
            StageModel::AwaitingInsert,
            seq![EventModel::LogInserted(false), EventModel::ExistingReport(None)],
        ) == Some(
            (
                StageModel::AwaitingReport,
                seq![CommandModel::FetchExistingReport(event_id), CommandModel::GenerateReport],
            ),
        ),
{
    let dup = seq![EventModel::LogInserted(false), EventModel::ExistingReport(Some(recorded))];
    let again = seq![EventModel::LogInserted(false), EventModel::ExistingReport(None)];
    assert(dup.drop_first().drop_first().len() == 0);
    assert(again.drop_first().drop_first().len() == 0);
    reveal_with_fuel(replay, 3);
}

/// Every operation that names an event names the process's own event.
pub proof fn lemma_commands_name_the_event(
    event_id: Seq<char>,
    stage: StageModel,
    event: EventModel,
)
    requires
        transition(event_id, stage, event) is Some,
    ensures
        transition(event_id, stage, event).unwrap().1 matches CommandModel::FetchExistingReport(e)
            ==> e == event_id,
        transition(event_id, stage, event).unwrap().1 is RecordResult ==> transition(
            event_id,
            stage,
            event,
        ).unwrap().1->RecordResult_event_id == event_id,
{
}

/// The answer to the insertion decides the next operation: a new log row leads straight
/// to the report, an existing one to the look-up of the report recorded for the event.
pub proof fn lemma_insert_answer(event_id: Seq<char>)
    ensures
        transition(event_id, StageModel::AwaitingInsert, EventModel::LogInserted(true)) == Some(
            (StageModel::AwaitingReport, CommandModel::GenerateReport),
        ),
        transition(event_id, StageModel::AwaitingInsert, EventModel::LogInserted(false))
            == Some(
            (StageModel::AwaitingExistingReport, CommandModel::FetchExistingReport(event_id)),
        ),
{
}

/// A written report is recorded under the event with its path, the e-mail status of the
/// settings at that moment and no error; once recorded, processing ends with that path.
pub proof fn lemma_written_report_recorded(
    event_id: Seq<char>,
    path: Seq<char>,
    email_status: Seq<char>,
)
    ensures
        transition(
            event_id,
            StageModel::AwaitingReport,
            EventModel::ReportWritten { report_path: path, email_status },
        ) == Some(
            (
                StageModel::RecordingSuccess(path),
                CommandModel::RecordResult {
                    event_id,
                    report_path: Some(path),
                    email_status,
                    error_message: None,
                },
            ),
        ),
        transition(event_id, StageModel::RecordingSuccess(path), EventModel::ResultRecorded)
            == Some((StageModel::Finished, CommandModel::Finish(OutcomeModel::Processed(path)))),
{
}

/// A failed insertion, look-up or recording of a written report ends processing at once
/// as failed, with the database's error.
pub proof fn lemma_database_failure_fails(
    event_id: Seq<char>,
    path: Seq<char>,
    error: Seq<char>,
)
    ensures
        transition(event_id, StageModel::AwaitingInsert, EventModel::DatabaseFailed(error))
            == Some((StageModel::Finished, CommandModel::Finish(OutcomeModel::Failed(error)))),
        transition(
            event_id,
            StageModel::AwaitingExistingReport,
            EventModel::DatabaseFailed(error),
        ) == Some((StageModel::Finished, CommandModel::Finish(OutcomeModel::Failed(error)))),
        transition(
            event_id,
            StageModel::RecordingSuccess(path),
            EventModel::DatabaseFailed(error),
        ) == Some((StageModel::Finished, CommandModel::Finish(OutcomeModel::Failed(error)))),
{
}

impl AlertProcess {
    /// Begins processing `alert`: its log row is to be inserted first.
    pub fn start(alert: &SpaceWeatherAlert) -> (res: (AlertProcess, ProcessCommand))
        ensures
            res.0.event_id@ == normalized_event_id_spec(
                alert.event_id@,
                alert.activity_id@,
                alert.timestamp@,
            ),
            res.0.stage@ == StageModel::AwaitingInsert,
            res.1@ == CommandModel::InsertAlertLog(res.0.event_id@),
    {
        let event_id = alert.normalized_event_id();
        let command = ProcessCommand::InsertAlertLog { event_id: event_id.clone() };
        (AlertProcess { event_id, stage: ProcessStage::AwaitingInsert }, command)
    }

    /// Whether `event` answers the operation that this process waits for.
    pub fn accepts(&self, event: &ProcessEvent) -> (res: bool)
        ensures
            res == transition(self.event_id@, self.stage@, event@) is Some,
    {
        match (&self.stage, event) {
            (ProcessStage::AwaitingInsert, ProcessEvent::LogInserted { .. }) => true,
            (ProcessStage::AwaitingInsert, ProcessEvent::DatabaseFailed { .. }) => true,
            (ProcessStage::AwaitingExistingReport, ProcessEvent::ExistingReport { .. }) => true,
            (ProcessStage::AwaitingExistingReport, ProcessEvent::DatabaseFailed { .. }) => true,
            (ProcessStage::AwaitingReport, ProcessEvent::ReportWritten { .. }) => true,
            (ProcessStage::AwaitingReport, ProcessEvent::ReportFailed { .. }) => true,
            (ProcessStage::RecordingFailure { .. }, ProcessEvent::ResultRecorded) => true,
            (ProcessStage::RecordingFailure { .. }, ProcessEvent::DatabaseFailed { .. }) => true,
            (ProcessStage::RecordingSuccess { .. }, ProcessEvent::ResultRecorded) => true,
            (ProcessStage::RecordingSuccess { .. }, ProcessEvent::DatabaseFailed { .. }) => true,
            _ => false,
        }
    }

    /// Whether processing is over.
    pub fn is_finished(&self) -> (res: bool)
        ensures
            res == (self.stage@ == StageModel::Finished),
    {
        match self.stage {
            ProcessStage::Finished => true,
            _ => false,
        }
    }

    /// Takes the answer to the last operation and gives the next one.
    pub fn step(&mut self, event: ProcessEvent) -> (res: ProcessCommand)
        requires
            transition(old(self).event_id@, old(self).stage@, event@) is Some,
        ensures
            final(self).event_id@ == old(self).event_id@,
            transition(old(self).event_id@, old(self).stage@, event@) == Some(
                (final(self).stage@, res@),
            ),
    {
        let mut stage = ProcessStage::Finished;
        std::mem::swap(&mut stage, &mut self.stage);
        match stage {
            ProcessStage::AwaitingInsert => match event {
                ProcessEvent::LogInserted { inserted } => {
                    if inserted {
                        self.stage = ProcessStage::AwaitingReport;
                        ProcessCommand::GenerateReport
                    } else {
                        self.stage = ProcessStage::AwaitingExistingReport;
                        ProcessCommand::FetchExistingReport { event_id: self.event_id.clone() }
                    }
                },
                ProcessEvent::DatabaseFailed { error } => {
                    ProcessCommand::Finish { outcome: ProcessOutcome::Failed { error } }
                },
                _ => ProcessCommand::GenerateReport,
            },
            ProcessStage::AwaitingExistingReport => match event {
                ProcessEvent::ExistingReport { recorded_path } => match recorded_path {
                    Some(_) => ProcessCommand::Finish { outcome: ProcessOutcome::Duplicate },
                    None => {
                        self.stage = ProcessStage::AwaitingReport;
                        ProcessCommand::GenerateReport
                    },
                },
                ProcessEvent::DatabaseFailed { error } => {
                    ProcessCommand::Finish { outcome: ProcessOutcome::Failed { error } }
                },
                _ => ProcessCommand::GenerateReport,
            },
            ProcessStage::AwaitingReport => match event {
                ProcessEvent::ReportWritten { report_path, email } => {
                    let status = email_status(&email);
                    let recorded_path = report_path.clone();
                    self.stage = ProcessStage::RecordingSuccess { report_path };
                    ProcessCommand::RecordResult {
                        event_id: self.event_id.clone(),
                        report_path: Some(recorded_path),
                        email_status: status,
                        error_message: None,
                    }
                },
                ProcessEvent::ReportFailed { error } => {
                    let message = error.clone();
                    self.stage = ProcessStage::RecordingFailure { error };
                    ProcessCommand::RecordResult {
                        event_id: self.event_id.clone(),
                        report_path: None,
                        email_status: String::from_str("disabled"),
                        error_message: Some(message),
                    }
                },
                _ => ProcessCommand::GenerateReport,
            },
            ProcessStage::RecordingFailure { error } => {
                ProcessCommand::Finish { outcome: ProcessOutcome::Failed { error } }
            },
            ProcessStage::RecordingSuccess { report_path } => match event {
                ProcessEvent::DatabaseFailed { error } => {
                    ProcessCommand::Finish { outcome: ProcessOutcome::Failed { error } }
                },
                _ => ProcessCommand::Finish { outcome: ProcessOutcome::Processed { report_path } },
            },
            ProcessStage::Finished => ProcessCommand::GenerateReport,
        }
    }
}

} // verus!
