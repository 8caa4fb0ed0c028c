//! What the in-process integration passes on to the window: the events of a toggle or an
//! insertion, and the answers to the window's requests.
use vstd::prelude::*;

use crate::integration_api::IntegrationStatus;
use crate::service::{DictationEvent, InsertResponse, ToggleResponse};

verus! {

/// What the window is told.
#[derive(Debug, Clone)]
pub enum IntegrationEvent {
    StateChanged(String),
    TextReady { cleaned: String, raw_text: String },
    InsertionResult { ok: bool, result_kind: String, message: String },
}

/// Whether the window event `i` carries what the controller event `d` reported.
pub open spec fn passes_on(d: DictationEvent, i: IntegrationEvent) -> bool {
    match (d, i) {
        (DictationEvent::StateChanged(a), IntegrationEvent::StateChanged(b)) => a@ == b@,
        (
            DictationEvent::TextReady { cleaned_text, raw_text },
            IntegrationEvent::TextReady { cleaned, raw_text: raw },
        ) => cleaned_text@ == cleaned@ && raw_text@ == raw@,
        (
            DictationEvent::InsertionResult(r),
            IntegrationEvent::InsertionResult { ok, result_kind, message },
        ) => r.ok == ok && r.result_kind@ == result_kind@ && r.message@ == message@,
        _ => false,
    }
}

/// The window event for an insertion report.
pub fn insertion_event(response: &InsertResponse) -> (r: IntegrationEvent)
    ensures
        r matches IntegrationEvent::InsertionResult { ok, result_kind, message } && ok
            == response.ok && result_kind@ == response.result_kind@ && message@
            == response.message@,
{
    IntegrationEvent::InsertionResult {
        ok: response.ok,
        result_kind: crate::text::copy_string(response.result_kind.as_str()),
        message: crate::text::copy_string(response.message.as_str()),
    }
}

/// The window event for a controller event.
pub fn integration_event(event: DictationEvent) -> (r: IntegrationEvent)
    ensures
        passes_on(event, r),
{
    match event {
        DictationEvent::StateChanged(state) => IntegrationEvent::StateChanged(state),
        DictationEvent::TextReady { cleaned_text, raw_text } => IntegrationEvent::TextReady {
            cleaned: cleaned_text,
            raw_text,
        },
        DictationEvent::InsertionResult(response) => IntegrationEvent::InsertionResult {
            ok: response.ok,
            result_kind: response.result_kind,
            message: response.message,
        },
    }
}

/// The window events for the controller events of a toggle, in the same order.
pub fn integration_events(events: Vec<DictationEvent>) -> (r: Vec<IntegrationEvent>)
    ensures
        r@.len() == events@.len(),
        forall|k: int| 0 <= k < events@.len() ==> passes_on(#[trigger] events@[k], r@[k]),
{
    let ghost all = events@;
    let mut rest = events;
    let mut stack: Vec<IntegrationEvent> = Vec::new();
    while rest.len() > 0
        invariant
            rest@ == all.take(rest@.len() as int),
            stack@.len() + rest@.len() == all.len(),
            forall|k: int| 0 <= k < stack@.len() ==> passes_on(
                #[trigger] all[all.len() - 1 - k],
                stack@[k],
            ),
        decreases rest@.len(),
    {
        let e = rest.pop().unwrap();
        proof {
            assert(e == all[rest@.len() as int]);
            assert(rest@ =~= all.take(rest@.len() as int));
        }
        stack.push(integration_event(e));
    }
    let mut result: Vec<IntegrationEvent> = Vec::new();
    while stack.len() > 0
        invariant
            result@.len() + stack@.len() == all.len(),
            forall|k: int| 0 <= k < stack@.len() ==> passes_on(
                #[trigger] all[all.len() - 1 - k],
                stack@[k],
            ),
            forall|k: int| 0 <= k < result@.len() ==> passes_on(#[trigger] all[k], result@[k]),
        decreases stack@.len(),
    {
        let e = stack.pop().unwrap();
        proof {
            let k = stack@.len() as int;
            assert(passes_on(all[all.len() - 1 - k], e));
        }
        result.push(e);
    }
    result
}

/// The answer to sending text and the event announcing it: the message, as an error when the
/// insertion failed.
pub fn send_text(response: InsertResponse) -> (r: (IntegrationEvent, Result<String, String>))
    ensures
        r.0 matches IntegrationEvent::InsertionResult { ok, result_kind, message } && ok
            == response.ok && result_kind@ == response.result_kind@ && message@
            == response.message@,
        response.ok ==> (r.1 matches Ok(m) && m@ == response.message@),
        !response.ok ==> (r.1 matches Err(m) && m@ == response.message@),
{
    let event = insertion_event(&response);
    if response.ok {
        (event, Ok(response.message))
    } else {
        (event, Err(response.message))
    }
}

/// The answer to a toggle and the events to announce: the message, as an error when the toggle
/// failed.
pub fn toggle_dictation(response: ToggleResponse) -> (r: (Vec<IntegrationEvent>, Result<String, String>))
    ensures
        r.0@.len() == response.events@.len(),
        forall|k: int|
            0 <= k < response.events@.len() ==> passes_on(#[trigger] response.events@[k], r.0@[k]),
        response.ok ==> (r.1 matches Ok(m) && m@ == response.message@),
        !response.ok ==> (r.1 matches Err(m) && m@ == response.message@),
{
    let ok = response.ok;
    let message = response.message;
    let events = integration_events(response.events);
    if ok {
        (events, Ok(message))
    } else {
        (events, Err(message))
    }
}

/// Whether the integration is running, given its status (`None` when it is not).
pub fn integration_available(status: &Option<IntegrationStatus>) -> (r: bool)
    ensures
        r == status is Some,
{
    status.is_some()
}

} // verus!
