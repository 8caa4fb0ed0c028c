//! What the host integration passes on to its clients: the events of a toggle or an insertion,
//! and the answers to their requests, as the older host-companion interface words them.
use vstd::prelude::*;

use crate::integration_api::{HostStatus, IntegrationStatus};
use crate::service::{DictationEvent, InsertResponse, ToggleResponse};
use crate::text::copy_string;

verus! {

/// What host-interface clients are told.
#[derive(Debug, Clone)]
pub enum HostEvent {
    StateChanged(String),
    TextReady { cleaned: String, raw_text: String },
    InsertionResult { ok: bool, result_kind: String, message: String },
}

/// Whether the host event `h` carries what the controller event `d` reported.
pub open spec fn relays(d: DictationEvent, h: HostEvent) -> bool {
    match (d, h) {
        (DictationEvent::StateChanged(a), HostEvent::StateChanged(b)) => a@ == b@,
        (
            DictationEvent::TextReady { cleaned_text, raw_text },
            HostEvent::TextReady { cleaned, raw_text: raw },
        ) => cleaned_text@ == cleaned@ && raw_text@ == raw@,
        (
            DictationEvent::InsertionResult(r),
            HostEvent::InsertionResult { ok, result_kind, message },
        ) => r.ok == ok && r.result_kind@ == result_kind@ && r.message@ == message@,
        _ => false,
    }
}

/// The host event for an insertion report.
pub fn insertion_event(response: &InsertResponse) -> (r: HostEvent)
    ensures
        r matches HostEvent::InsertionResult { ok, result_kind, message } && ok == response.ok
            && result_kind@ == response.result_kind@ && message@ == response.message@,
{
    HostEvent::InsertionResult {
        ok: response.ok,
        result_kind: copy_string(response.result_kind.as_str()),
        message: copy_string(response.message.as_str()),
    }
}

/// The host event for a controller event.
pub fn host_event(event: DictationEvent) -> (r: HostEvent)
    ensures
        relays(event, r),
{
    match event {
        DictationEvent::StateChanged(state) => HostEvent::StateChanged(state),
        DictationEvent::TextReady { cleaned_text, raw_text } => HostEvent::TextReady {
            cleaned: cleaned_text,
            raw_text,
        },
        DictationEvent::InsertionResult(response) => HostEvent::InsertionResult {
            ok: response.ok,
            result_kind: response.result_kind,
            message: response.message,
        },
    }
}

/// The host events for the controller events of a toggle, in the same order.
pub fn host_events(events: Vec<DictationEvent>) -> (r: Vec<HostEvent>)
    ensures
        r@.len() == events@.len(),
        forall|k: int| 0 <= k < events@.len() ==> relays(#[trigger] events@[k], r@[k]),
{
    let ghost all = events@;
    let mut rest = events;
    let mut reversed: Vec<HostEvent> = Vec::new();
    while rest.len() > 0
        invariant
            rest@ == all.take(rest@.len() as int),
            reversed@.len() + rest@.len() == all.len(),
            forall|k: int| 0 <= k < reversed@.len() ==> relays(
                #[trigger] all[all.len() - 1 - k],
                reversed@[k],
            ),
        decreases rest@.len(),
    {
        let e = rest.pop().unwrap();
        proof {
            assert(e == all[rest@.len() as int]);
            assert(rest@ =~= all.take(rest@.len() as int));
        }
        reversed.push(host_event(e));
    }
    let mut result: Vec<HostEvent> = Vec::new();
    while reversed.len() > 0
        invariant
            result@.len() + reversed@.len() == all.len(),
            forall|k: int| 0 <= k < reversed@.len() ==> relays(
                #[trigger] all[all.len() - 1 - k],
                reversed@[k],
            ),
            forall|k: int| 0 <= k < result@.len() ==> relays(#[trigger] all[k], result@[k]),
        decreases reversed@.len(),
    {
        let e = reversed.pop().unwrap();
        proof {
            let k = reversed@.len() as int;
            assert(relays(all[all.len() - 1 - k], e));
        }
        result.push(e);
    }
    result
}

/// The answer to sending text and the event announcing it: the message, as an error when the
/// insertion failed.
pub fn send_text(response: InsertResponse) -> (r: (HostEvent, Result<String, String>))
    ensures
        r.0 matches HostEvent::InsertionResult { ok, result_kind, message } && ok == response.ok
            && result_kind@ == response.result_kind@ && message@ == response.message@,
        response.ok ==> (r.1 matches Ok(m) && m@ == response.message@),
        !response.ok ==> (r.1 matches Err(m) && m@ == response.message@),
{
    let event = insertion_event(&response);
    if response.ok {
        (event, Ok(response.message))
    } else {
        (event, Err(response.message))
    }
}

/// The answer to a toggle and the events to announce: the message, as an error when the toggle
/// failed.
pub fn toggle_dictation(response: ToggleResponse) -> (r: (Vec<HostEvent>, Result<String, String>))
    ensures
        r.0@.len() == response.events@.len(),
        forall|k: int|
            0 <= k < response.events@.len() ==> relays(#[trigger] response.events@[k], r.0@[k]),
        response.ok ==> (r.1 matches Ok(m) && m@ == response.message@),
        !response.ok ==> (r.1 matches Err(m) && m@ == response.message@),
{
    let ok = response.ok;
    let message = response.message;
    let events = host_events(response.events);
    if ok {
        (events, Ok(message))
    } else {
        (events, Err(message))
    }
}

/// The short host status for an integration status.
pub fn host_status_of(status: &IntegrationStatus) -> (r: HostStatus)
    ensures
        r.status@ == status.status@,
        r.hotkey_active == status.hotkey_active,
        r.insertion_available == status.insertion_available,
{
    HostStatus {
        status: copy_string(status.status.as_str()),
        hotkey_active: status.hotkey_active,
        insertion_available: status.insertion_available,
    }
}

/// Whether the host integration is running, given its status (`None` when it is not).
pub fn host_available(status: &Option<HostStatus>) -> (r: bool)
    ensures
        r == status is Some,
{
    status.is_some()
}

} // verus!
