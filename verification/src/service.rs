//! The dictation controller: what a toggle of the shortcut does to the dictation state,
//! which toggles are refused, and what is reported after each step. Recording,
//! transcription and insertion themselves are carried out by the caller, which hands the
//! results back.
use vstd::prelude::*;

use crate::dictation::{DictationError, TranscriptResult};
use crate::insertion::{InsertionOutcome, InsertionStatus};
use crate::integration_api::{
    IntegrationStatus, INSERTION_RESULT_FAILED, STATE_DONE, STATE_IDLE, STATE_LISTENING,
    STATE_PROCESSING,
};
use crate::text::{chars_of, chars_eq, copy_string, push_all, str_concat, str_concat3, string_of};

verus! {

/// How long after an accepted toggle another toggle is ignored, in milliseconds.
pub const TOGGLE_DEBOUNCE_MS: u64 = 900;

/// What an insertion attempt reported.
#[derive(Debug, Clone)]
pub struct InsertResponse {
    pub ok: bool,
    pub result_kind: String,
    pub message: String,
}

/// What the user interface is told after a toggle.
#[derive(Debug, Clone)]
pub enum DictationEvent {
    StateChanged(String),
    TextReady { cleaned_text: String, raw_text: String },
    InsertionResult(InsertResponse),
}

/// The events the host daemon emits as D-Bus signals after a toggle: the controller's own.
pub type HostSignalEvent = DictationEvent;

/// The answer to a toggle.
#[derive(Debug, Clone)]
pub struct ToggleResponse {
    pub ok: bool,
    pub message: String,
    pub events: Vec<DictationEvent>,
}

/// What a toggle asks the caller to do next.
#[derive(Debug, Clone)]
pub enum ToggleStep {
    /// The toggle was refused; this is the answer.
    Rejected(ToggleResponse),
    /// Start recording, then report with `finish_start`.
    Start,
    /// Stop recording and transcribe, then report with `finish_stop` (after inserting the text
    /// with `record_insertion`) or `finish_stop_failed`.
    Stop,
}

/// Which program runs the controller: the app's own integration, or the host daemon that
/// serves the same D-Bus interface for sandboxed installs. They differ only in the wording of
/// a few messages.
#[derive(Debug, Clone, Copy, PartialEq, Eq, Structural)]
pub enum ServiceRole {
    Integration,
    HostDaemon,
}

/// The dictation state shared by the shortcut, the window and the D-Bus interface.
#[derive(Debug)]
pub struct DictationService {
    /// Which program runs this controller.
    pub role: ServiceRole,
    /// One of the four dictation states.
    pub dictation_state: String,
    /// The latest message for the user.
    pub last_status: String,
    /// When the latest accepted toggle happened, in milliseconds on a monotonic clock.
    pub last_toggle_at: Option<u64>,
    /// What was last found out about text insertion.
    pub insertion: InsertionStatus,
}

/// Whether `s` names one of the four dictation states.
pub open spec fn is_dictation_state(s: Seq<char>) -> bool {
    s == STATE_IDLE@ || s == STATE_LISTENING@ || s == STATE_PROCESSING@ || s == STATE_DONE@
}

/// The message the user sees for an error; `None` stands for any error that is not a
/// dictation error.
pub open spec fn sanitized_text(err: Option<DictationError>) -> Seq<char> {
    match err {
        Some(DictationError::WhisperCliNotFound) => "whisper.cpp is not installed yet."@,
        Some(DictationError::NoLocalModel) => "No local model is installed yet."@,
        Some(DictationError::NoAudioCaptured) => "The microphone did not produce any audio."@,
        Some(DictationError::MissingRuntimeDir) => "SayWrite could not access a private runtime directory for recordings."@,
        None => "SayWrite hit an unexpected error."@,
    }
}

/// The message the host daemon shows for an error; `None` stands for any error that is not a
/// dictation error.
pub open spec fn host_error_text(err: Option<DictationError>) -> Seq<char> {
    match err {
        Some(DictationError::WhisperCliNotFound) => "whisper.cpp is not installed for the host daemon yet."@,
        None => "The host daemon hit an unexpected error."@,
        _ => sanitized_text(err),
    }
}

/// The message a controller in `role` shows for an error.
pub open spec fn role_error_text(role: ServiceRole, err: Option<DictationError>) -> Seq<char> {
    match role {
        ServiceRole::Integration => sanitized_text(err),
        ServiceRole::HostDaemon => host_error_text(err),
    }
}

/// The first message of a controller in `role`.
pub open spec fn initial_status_text(role: ServiceRole) -> Seq<char> {
    match role {
        ServiceRole::Integration => "Native integration initialized."@,
        ServiceRole::HostDaemon => "Host daemon initialized."@,
    }
}

/// The result kind and user-facing message for an error; `None` stands for any error that is
/// not a dictation error. Every error is reported with the failed result kind.
pub fn sanitize_error(err: Option<DictationError>) -> (r: (String, String))
    ensures
        r.0@ == INSERTION_RESULT_FAILED@,
        r.1@ == sanitized_text(err),
{
    let message = match err {
        Some(DictationError::WhisperCliNotFound) => copy_string("whisper.cpp is not installed yet."),
        Some(DictationError::NoLocalModel) => copy_string("No local model is installed yet."),
        Some(DictationError::NoAudioCaptured) => copy_string(
            "The microphone did not produce any audio.",
        ),
        Some(DictationError::MissingRuntimeDir) => copy_string(
            "SayWrite could not access a private runtime directory for recordings.",
        ),
        None => copy_string("SayWrite hit an unexpected error."),
    };
    (copy_string(INSERTION_RESULT_FAILED), message)
}

/// The host daemon's message for an error; `None` stands for any error that is not a
/// dictation error.
pub fn error_message(err: Option<DictationError>) -> (r: String)
    ensures
        r@ == host_error_text(err),
{
    match err {
        Some(DictationError::WhisperCliNotFound) => copy_string(
            "whisper.cpp is not installed for the host daemon yet.",
        ),
        None => copy_string("The host daemon hit an unexpected error."),
        Some(e) => sanitize_error(Some(e)).1,
    }
}

/// The result kind and message for an error, worded for a controller in `role`.
pub fn sanitize_error_for(role: ServiceRole, err: Option<DictationError>) -> (r: (String, String))
    ensures
        r.0@ == INSERTION_RESULT_FAILED@,
        r.1@ == role_error_text(role, err),
{
    match role {
        ServiceRole::Integration => sanitize_error(err),
        ServiceRole::HostDaemon => (copy_string(INSERTION_RESULT_FAILED), error_message(err)),
    }
}

/// Whether a toggle at `now` comes too soon after the accepted toggle at `last`.
pub open spec fn debounced(last: Option<u64>, now: u64) -> bool {
    match last {
        Some(t) => (if now >= t {
            now - t
        } else {
            0
        }) < TOGGLE_DEBOUNCE_MS,
        None => false,
    }
}

/// The debounce window: after a toggle accepted at `last`, a toggle at `now` is refused
/// exactly when it comes less than the debounce interval later (a clock reading before `last`
/// counts as no time passing), and nothing is refused before the first accepted toggle.
pub proof fn lemma_debounce_window(last: u64, now: u64)
    ensures
        debounced(Some(last), now) <==> now < last + TOGGLE_DEBOUNCE_MS,
        !debounced(None, now),
{
}

pub open spec fn busy_text() -> Seq<char> {
    "Dictation is already changing state. Release the shortcut and try again."@
}

pub open spec fn repeated_text() -> Seq<char> {
    "Ignoring repeated shortcut activation. Release the shortcut before toggling again."@
}

pub open spec fn state_changed_to(e: DictationEvent, state: Seq<char>) -> bool {
    e matches DictationEvent::StateChanged(s) && s@ == state
}

/// What `begin_toggle` does to the controller `s0`, leaving it as `s1` and asking for `step`:
/// a toggle is refused while another runs or within the debounce window, and otherwise moves
/// to processing and asks to stop a running dictation or to start one.
pub open spec fn toggle_begun(
    s0: DictationService,
    guard_acquired: bool,
    now: u64,
    s1: DictationService,
    step: ToggleStep,
) -> bool {
    &&& s1.well_formed()
    &&& s1.role == s0.role
    &&& (!guard_acquired || debounced(s0.last_toggle_at, now)) ==> (step matches ToggleStep::Rejected(
        resp,
    ) && !resp.ok && resp.events@.len() == 0 && s1.dictation_state == s0.dictation_state
        && s1.last_toggle_at == s0.last_toggle_at)
    &&& (guard_acquired && !debounced(s0.last_toggle_at, now)) ==> {
        &&& s1.last_toggle_at == Some(now)
        &&& s1.dictation_state@ == STATE_PROCESSING@
        &&& if s0.dictation_state@ == STATE_LISTENING@ {
            step is Stop
        } else {
            step is Start
        }
    }
}

/// What `finish_start` reports and leaves after a start that ended with `result`.
pub open spec fn start_finished(
    s1: DictationService,
    result: Result<String, Option<DictationError>>,
    s2: DictationService,
    r: ToggleResponse,
) -> bool {
    &&& s2.well_formed()
    &&& s2.role == s1.role
    &&& r.events@.len() == 2
    &&& state_changed_to(r.events@[0], STATE_PROCESSING@)
    &&& r.ok == result is Ok
    &&& s2.dictation_state@ == (if result is Ok {
        STATE_LISTENING@
    } else {
        STATE_IDLE@
    })
    &&& state_changed_to(r.events@[1], s2.dictation_state@)
}

/// What `finish_stop` reports and leaves after a transcript whose insertion reported
/// `insertion`.
pub open spec fn stop_finished(
    s1: DictationService,
    insertion: InsertResponse,
    s2: DictationService,
    r: ToggleResponse,
) -> bool {
    &&& s2.well_formed()
    &&& s2.role == s1.role
    &&& r.ok == insertion.ok
    &&& s2.dictation_state@ == STATE_DONE@
    &&& r.events@.len() == 4
    &&& state_changed_to(r.events@[0], STATE_PROCESSING@)
    &&& state_changed_to(r.events@[3], STATE_DONE@)
}

/// What `finish_stop_failed` reports and leaves after a stop that failed.
pub open spec fn stop_failed(s1: DictationService, s2: DictationService, r: ToggleResponse) -> bool {
    &&& s2.well_formed()
    &&& s2.role == s1.role
    &&& !r.ok
    &&& s2.dictation_state@ == STATE_IDLE@
    &&& r.events@.len() == 2
    &&& state_changed_to(r.events@[0], STATE_PROCESSING@)
    &&& state_changed_to(r.events@[1], STATE_IDLE@)
}

/// One whole toggle of the shortcut: `begin_toggle` on `s0`, then, as it asks, the report of
/// the start (`start`), of the stop (`stop`, with the insertion of the transcript reported as
/// `insertion`), or nothing when it refused. A refused toggle answers with no events and keeps
/// the dictation state. Otherwise the events begin with processing and end with the new state:
/// listening exactly when a start succeeded, done exactly when a stop succeeded (and the toggle
/// succeeds as the insertion did), and idle, with a failed toggle, in every other case.
pub proof fn lemma_toggle_dictation(
    s0: DictationService,
    guard_acquired: bool,
    now: u64,
    s1: DictationService,
    step: ToggleStep,
    start: Result<String, Option<DictationError>>,
    stop: Result<TranscriptResult, Option<DictationError>>,
    insertion: InsertResponse,
    s2: DictationService,
    r: ToggleResponse,
)
    requires
        s0.well_formed(),
        toggle_begun(s0, guard_acquired, now, s1, step),
        match step {
            ToggleStep::Rejected(resp) => r == resp && s2 == s1,
            ToggleStep::Start => start_finished(s1, start, s2, r),
            ToggleStep::Stop => match stop {
                Ok(_) => stop_finished(s1, insertion, s2, r),
                Err(_) => stop_failed(s1, s2, r),
            },
        },
    ensures
        s2.well_formed(),
        (!guard_acquired || debounced(s0.last_toggle_at, now)) ==> !r.ok && r.events@.len() == 0
            && s2.dictation_state == s0.dictation_state,
        (guard_acquired && !debounced(s0.last_toggle_at, now)) ==> {
            &&& r.events@.len() > 0
            &&& state_changed_to(r.events@[0], STATE_PROCESSING@)
            &&& state_changed_to(r.events@.last(), s2.dictation_state@)
            &&& (s2.dictation_state@ == STATE_LISTENING@ <==> (s0.dictation_state@
                != STATE_LISTENING@ && start is Ok))
            &&& (s2.dictation_state@ == STATE_DONE@ <==> (s0.dictation_state@ == STATE_LISTENING@
                && stop is Ok))
            &&& (s2.dictation_state@ == STATE_DONE@ ==> r.ok == insertion.ok)
            &&& (s2.dictation_state@ != STATE_LISTENING@ && s2.dictation_state@ != STATE_DONE@)
                ==> (s2.dictation_state@ == STATE_IDLE@ && !r.ok)
        },
{
    reveal_strlit("idle");
    reveal_strlit("listening");
    reveal_strlit("processing");
    reveal_strlit("done");
    assert(STATE_LISTENING@ != STATE_DONE@ && STATE_LISTENING@ != STATE_IDLE@ && STATE_DONE@
        != STATE_IDLE@) by {
        assert(STATE_LISTENING@[0] != STATE_DONE@[0]);
        assert(STATE_LISTENING@[0] != STATE_IDLE@[0]);
        assert(STATE_DONE@[0] != STATE_IDLE@[0]);
    }
}

impl DictationService {
    /// The state holds one of the four dictation states.
    pub open spec fn well_formed(&self) -> bool {
        is_dictation_state(self.dictation_state@)
    }

    /// A controller for `role` that is idle and has not been toggled yet.
    pub fn for_role(role: ServiceRole, insertion: InsertionStatus) -> (r: DictationService)
        ensures
            r.well_formed(),
            r.role == role,
            r.dictation_state@ == STATE_IDLE@,
            r.last_status@ == initial_status_text(role),
            r.last_toggle_at is None,
            r.insertion == insertion,
    {
        let last_status = match role {
            ServiceRole::Integration => copy_string("Native integration initialized."),
            ServiceRole::HostDaemon => copy_string("Host daemon initialized."),
        };
        DictationService {
            role,
            dictation_state: copy_string(STATE_IDLE),
            last_status,
            last_toggle_at: None,
            insertion,
        }
    }

    /// The app's own controller, idle and not toggled yet.
    pub fn new(insertion: InsertionStatus) -> (r: DictationService)
        ensures
            r.well_formed(),
            r.role == ServiceRole::Integration,
            r.dictation_state@ == STATE_IDLE@,
            r.last_status@ == "Native integration initialized."@,
            r.last_toggle_at is None,
            r.insertion == insertion,
    {
        DictationService::for_role(ServiceRole::Integration, insertion)
    }

    /// The host daemon's controller, idle and not toggled yet.
    pub fn new_host_daemon(insertion: InsertionStatus) -> (r: DictationService)
        ensures
            r.well_formed(),
            r.role == ServiceRole::HostDaemon,
            r.dictation_state@ == STATE_IDLE@,
            r.last_status@ == "Host daemon initialized."@,
            r.last_toggle_at is None,
            r.insertion == insertion,
    {
        DictationService::for_role(ServiceRole::HostDaemon, insertion)
    }

    /// Refuses a toggle at `now` that comes within the debounce window of the last accepted
    /// one, recording the refusal; otherwise records `now` as the last accepted toggle.
    pub fn reject_if_repeated_toggle(&mut self, now: u64) -> (r: Option<String>)
        ensures
            r is Some <==> debounced(old(self).last_toggle_at, now),
            r matches Some(m) ==> m@ == repeated_text() && final(self).last_status@
                == repeated_text() && final(self).last_toggle_at == old(self).last_toggle_at,
            r is None ==> final(self).last_toggle_at == Some(now) && final(self).last_status
                == old(self).last_status,
            final(self).dictation_state == old(self).dictation_state,
            final(self).insertion == old(self).insertion,
            final(self).role == old(self).role,
    {
        if let Some(last) = self.last_toggle_at {
            let elapsed: u64 = if now >= last {
                now - last
            } else {
                0
            };
            if elapsed < TOGGLE_DEBOUNCE_MS {
                let message = copy_string(
                    "Ignoring repeated shortcut activation. Release the shortcut before toggling again.",
                );
                self.last_status = copy_string(message.as_str());
                return Some(message);
            }
        }
        self.last_toggle_at = Some(now);
        None
    }

    /// Sets the dictation state and the message.
    fn transition_state(&mut self, phase: &str, message: &str)
        requires
            is_dictation_state(phase@),
        ensures
            final(self).dictation_state@ == phase@,
            final(self).last_status@ == message@,
            final(self).last_toggle_at == old(self).last_toggle_at,
            final(self).insertion == old(self).insertion,
            final(self).role == old(self).role,
    {
        self.dictation_state = copy_string(phase);
        self.last_status = copy_string(message);
    }

    /// The first half of a toggle at `now`. `guard_acquired` tells whether no other toggle is
    /// under way. A toggle is refused while another is under way and within the debounce
    /// window; otherwise the controller goes to processing and asks to start recording, or to
    /// stop it when it was listening.
    pub fn begin_toggle(&mut self, guard_acquired: bool, now: u64) -> (r: ToggleStep)
        requires
            old(self).well_formed(),
        ensures
            toggle_begun(*old(self), guard_acquired, now, *final(self), r),
            final(self).well_formed(),
            !guard_acquired ==> (r matches ToggleStep::Rejected(resp) && !resp.ok
                && resp.message@ == busy_text() && resp.events@.len() == 0
                && final(self).last_status@ == busy_text()
                && final(self).last_toggle_at == old(self).last_toggle_at),
            guard_acquired && debounced(old(self).last_toggle_at, now) ==> (
            r matches ToggleStep::Rejected(resp) && !resp.ok && resp.message@ == repeated_text()
                && resp.events@.len() == 0 && final(self).last_status@ == repeated_text()
                && final(self).last_toggle_at == old(self).last_toggle_at),
            r is Rejected ==> final(self).dictation_state == old(self).dictation_state,
            guard_acquired && !debounced(old(self).last_toggle_at, now) ==> {
                &&& final(self).last_toggle_at == Some(now)
                &&& final(self).dictation_state@ == STATE_PROCESSING@
                &&& old(self).dictation_state@ == STATE_LISTENING@ ==> (r is Stop
                    && final(self).last_status@ == "Processing transcript."@)
                &&& old(self).dictation_state@ != STATE_LISTENING@ ==> (r is Start
                    && final(self).last_status@ == "Starting dictation."@)
            },
            final(self).insertion == old(self).insertion,
            final(self).role == old(self).role,
    {
        if !guard_acquired {
            let message = copy_string(
                "Dictation is already changing state. Release the shortcut and try again.",
            );
            self.last_status = copy_string(message.as_str());
            return ToggleStep::Rejected(ToggleResponse { ok: false, message, events: Vec::new() });
        }
        if let Some(message) = self.reject_if_repeated_toggle(now) {
            return ToggleStep::Rejected(ToggleResponse { ok: false, message, events: Vec::new() });
        }
        let state = chars_of(self.dictation_state.as_str());
        let listening_name = chars_of(STATE_LISTENING);
        let listening = chars_eq(&state, &listening_name);
        if !listening {
            self.transition_state(STATE_PROCESSING, "Starting dictation.");
            ToggleStep::Start
        } else {
            self.transition_state(STATE_PROCESSING, "Processing transcript.");
            ToggleStep::Stop
        }
    }

    /// Reports how starting the recording went: listening with its message, or back to idle
    /// with the user-facing error (`None` for an error that is not a dictation error).
    pub fn finish_start(&mut self, result: Result<String, Option<DictationError>>) -> (r:
        ToggleResponse)
        requires
            old(self).well_formed(),
        ensures
            start_finished(*old(self), result, *final(self), r),
            final(self).well_formed(),
            r.events@.len() == 2,
            state_changed_to(r.events@[0], STATE_PROCESSING@),
            match result {
                Ok(m) => {
                    &&& r.ok
                    &&& r.message@ == m@
                    &&& final(self).dictation_state@ == STATE_LISTENING@
                    &&& final(self).last_status@ == m@
                    &&& state_changed_to(r.events@[1], STATE_LISTENING@)
                },
                Err(e) => {
                    &&& !r.ok
                    &&& r.message@ == role_error_text(old(self).role, e)
                    &&& final(self).dictation_state@ == STATE_IDLE@
                    &&& final(self).last_status@ == role_error_text(old(self).role, e)
                    &&& state_changed_to(r.events@[1], STATE_IDLE@)
                },
            },
            final(self).last_toggle_at == old(self).last_toggle_at,
            final(self).insertion == old(self).insertion,
            final(self).role == old(self).role,
    {
        match result {
            Ok(message) => {
                self.transition_state(STATE_LISTENING, message.as_str());
                let mut events: Vec<DictationEvent> = Vec::new();
                events.push(DictationEvent::StateChanged(copy_string(STATE_PROCESSING)));
                events.push(DictationEvent::StateChanged(copy_string(STATE_LISTENING)));
                ToggleResponse { ok: true, message, events }
            },
            Err(err) => {
                let (_, message) = sanitize_error_for(self.role, err);
                self.transition_state(STATE_IDLE, message.as_str());
                let mut events: Vec<DictationEvent> = Vec::new();
                events.push(DictationEvent::StateChanged(copy_string(STATE_PROCESSING)));
                events.push(DictationEvent::StateChanged(copy_string(STATE_IDLE)));
                ToggleResponse { ok: false, message, events }
            },
        }
    }

    /// Records how inserting text went (`None` when every backend failed) and what is now known
    /// about insertion; the answer says so in the user's words.
    pub fn record_insertion(&mut self, outcome: Option<InsertionOutcome>, insertion: InsertionStatus) -> (r:
        InsertResponse)
        ensures
            r.ok == outcome is Some,
            outcome matches Some(o) ==> r.result_kind@ == o.result_kind@ && r.message@
                == o.message@,
            outcome is None ==> r.result_kind@ == INSERTION_RESULT_FAILED@ && r.message@
                == role_error_text(old(self).role, None),
            final(self).last_status@ == r.message@,
            final(self).insertion == insertion,
            final(self).role == old(self).role,
            final(self).dictation_state == old(self).dictation_state,
            final(self).last_toggle_at == old(self).last_toggle_at,
    {
        let ok = outcome.is_some();
        let (result_kind, message) = match outcome {
            Some(o) => (o.result_kind, o.message),
            None => sanitize_error_for(self.role, None),
        };
        self.last_status = copy_string(message.as_str());
        self.insertion = insertion;
        InsertResponse { ok, result_kind, message }
    }

    /// Reports a finished dictation: the transcript and how its insertion went (from
    /// `record_insertion`); the controller is done.
    pub fn finish_stop(&mut self, transcript: TranscriptResult, insertion: InsertResponse) -> (r:
        ToggleResponse)
        requires
            old(self).well_formed(),
        ensures
            stop_finished(*old(self), insertion, *final(self), r),
            final(self).well_formed(),
            r.ok == insertion.ok,
            r.message@ == insertion.message@,
            final(self).dictation_state@ == STATE_DONE@,
            final(self).last_status@ == insertion.message@,
            r.events@.len() == 4,
            state_changed_to(r.events@[0], STATE_PROCESSING@),
            r.events@[1] matches DictationEvent::TextReady { cleaned_text, raw_text } && cleaned_text@
                == transcript.cleaned_text@ && raw_text@ == transcript.raw_text@,
            r.events@[2] matches DictationEvent::InsertionResult(i) && i.ok == insertion.ok
                && i.result_kind@ == insertion.result_kind@ && i.message@ == insertion.message@,
            state_changed_to(r.events@[3], STATE_DONE@),
            final(self).last_toggle_at == old(self).last_toggle_at,
            final(self).insertion == old(self).insertion,
            final(self).role == old(self).role,
    {
        self.transition_state(STATE_DONE, insertion.message.as_str());
        let message = copy_string(insertion.message.as_str());
        let ok = insertion.ok;
        let mut events: Vec<DictationEvent> = Vec::new();
        events.push(DictationEvent::StateChanged(copy_string(STATE_PROCESSING)));
        events.push(
            DictationEvent::TextReady {
                cleaned_text: transcript.cleaned_text,
                raw_text: transcript.raw_text,
            },
        );
        events.push(DictationEvent::InsertionResult(insertion));
        events.push(DictationEvent::StateChanged(copy_string(STATE_DONE)));
        ToggleResponse { ok, message, events }
    }

    /// Reports a dictation that could not be stopped or transcribed: back to idle with the
    /// user-facing error (`None` for an error that is not a dictation error).
    pub fn finish_stop_failed(&mut self, err: Option<DictationError>) -> (r: ToggleResponse)
        requires
            old(self).well_formed(),
        ensures
            stop_failed(*old(self), *final(self), r),
            final(self).well_formed(),
            !r.ok,
            r.message@ == role_error_text(old(self).role, err),
            final(self).dictation_state@ == STATE_IDLE@,
            final(self).last_status@ == role_error_text(old(self).role, err),
            r.events@.len() == 2,
            state_changed_to(r.events@[0], STATE_PROCESSING@),
            state_changed_to(r.events@[1], STATE_IDLE@),
            final(self).last_toggle_at == old(self).last_toggle_at,
            final(self).insertion == old(self).insertion,
            final(self).role == old(self).role,
    {
        let (_, message) = sanitize_error_for(self.role, err);
        self.transition_state(STATE_IDLE, message.as_str());
        let mut events: Vec<DictationEvent> = Vec::new();
        events.push(DictationEvent::StateChanged(copy_string(STATE_PROCESSING)));
        events.push(DictationEvent::StateChanged(copy_string(STATE_IDLE)));
        ToggleResponse { ok: false, message, events }
    }

    /// The integration status, after recording what is now known about insertion: the last
    /// message, then the dictation state and insertion method in brackets.
    pub fn get_status(&mut self, hotkey_active: bool, insertion: InsertionStatus) -> (r:
        IntegrationStatus)
        ensures
            final(self).insertion == insertion,
            final(self).role == old(self).role,
            r.status@ == old(self).last_status@ + " ["@ + old(self).dictation_state@ + " via "@
                + insertion.method@ + "]"@,
            r.hotkey_active == hotkey_active,
            r.insertion_available == insertion.available,
            r.insertion_capability@ == insertion.capability@,
            r.insertion_backend@ == insertion.method@,
            final(self).dictation_state == old(self).dictation_state,
            final(self).last_status == old(self).last_status,
            final(self).last_toggle_at == old(self).last_toggle_at,
    {
        let head = str_concat3(self.last_status.as_str(), " [", self.dictation_state.as_str());
        let status = str_concat3(head.as_str(), " via ", insertion.method.as_str());
        let status = str_concat(status.as_str(), "]");
        let capability = copy_string(insertion.capability.as_str());
        let backend = copy_string(insertion.method.as_str());
        let available = insertion.available;
        self.insertion = insertion;
        IntegrationStatus {
            status,
            hotkey_active,
            insertion_available: available,
            insertion_capability: capability,
            insertion_backend: backend,
        }
    }
}

} // verus!
