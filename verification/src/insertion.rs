//! How cleaned text reaches the focused application: which insertion backends are tried,
//! in what order, and how each of them is reported.
use vstd::prelude::*;

use crate::config::opt_view;
use crate::integration_api::{
    INSERTION_CAPABILITY_CLIPBOARD_ONLY, INSERTION_CAPABILITY_NOTIFICATION_ONLY,
    INSERTION_CAPABILITY_TYPING, INSERTION_CAPABILITY_UNAVAILABLE, INSERTION_RESULT_COPIED,
    INSERTION_RESULT_FAILED, INSERTION_RESULT_NOTIFIED, INSERTION_RESULT_TYPED,
};
use crate::text::{
    chars_of, copy_string, eq_ignore_case, eq_ignore_case_chars, push_all, push_range, str_concat,
    str_concat3, string_of, trim, trim_chars,
};

verus! {

/// The ways text can be delivered.
#[derive(Debug, Clone, Copy, PartialEq, Eq, Structural)]
pub enum Backend {
    IbusEngine,
    Wtype,
    Xdotool,
    WlClipboard,
    Xclip,
    Xsel,
    NotifySend,
    Unavailable,
}

/// Whether text can be delivered here, how, and through which backend.
#[derive(Debug, Clone)]
pub struct InsertionStatus {
    pub available: bool,
    pub capability: String,
    pub method: String,
}

/// How text was delivered.
#[derive(Debug, Clone)]
pub struct InsertionOutcome {
    pub result_kind: String,
    pub message: String,
}

/// Whether `b` types text, only fills the clipboard, or only shows a notification.
pub open spec fn capability_of(b: Backend) -> Seq<char> {
    match b {
        Backend::IbusEngine | Backend::Wtype | Backend::Xdotool => INSERTION_CAPABILITY_TYPING@,
        Backend::WlClipboard | Backend::Xclip | Backend::Xsel => INSERTION_CAPABILITY_CLIPBOARD_ONLY@,
        Backend::NotifySend => INSERTION_CAPABILITY_NOTIFICATION_ONLY@,
        Backend::Unavailable => INSERTION_CAPABILITY_UNAVAILABLE@,
    }
}

/// The result kind reported after `b` delivered text.
pub open spec fn result_kind_of(b: Backend) -> Seq<char> {
    match b {
        Backend::IbusEngine | Backend::Wtype | Backend::Xdotool => INSERTION_RESULT_TYPED@,
        Backend::WlClipboard | Backend::Xclip | Backend::Xsel => INSERTION_RESULT_COPIED@,
        Backend::NotifySend => INSERTION_RESULT_NOTIFIED@,
        Backend::Unavailable => INSERTION_RESULT_FAILED@,
    }
}

/// The name of `b`; for a command-line tool, the tool's name.
pub open spec fn backend_name_of(b: Backend) -> Seq<char> {
    match b {
        Backend::IbusEngine => "ibus-engine"@,
        Backend::Wtype => "wtype"@,
        Backend::Xdotool => "xdotool"@,
        Backend::WlClipboard => "wl-copy"@,
        Backend::Xclip => "xclip"@,
        Backend::Xsel => "xsel"@,
        Backend::NotifySend => "notify-send"@,
        Backend::Unavailable => "unavailable"@,
    }
}

pub fn capability_for_backend(backend: Backend) -> (r: &'static str)
    ensures
        r@ == capability_of(backend),
{
    match backend {
        Backend::IbusEngine | Backend::Wtype | Backend::Xdotool => INSERTION_CAPABILITY_TYPING,
        Backend::WlClipboard | Backend::Xclip | Backend::Xsel => INSERTION_CAPABILITY_CLIPBOARD_ONLY,
        Backend::NotifySend => INSERTION_CAPABILITY_NOTIFICATION_ONLY,
        Backend::Unavailable => INSERTION_CAPABILITY_UNAVAILABLE,
    }
}

pub fn result_kind_for_backend(backend: Backend) -> (r: &'static str)
    ensures
        r@ == result_kind_of(backend),
{
    match backend {
        Backend::IbusEngine | Backend::Wtype | Backend::Xdotool => INSERTION_RESULT_TYPED,
        Backend::WlClipboard | Backend::Xclip | Backend::Xsel => INSERTION_RESULT_COPIED,
        Backend::NotifySend => INSERTION_RESULT_NOTIFIED,
        Backend::Unavailable => INSERTION_RESULT_FAILED,
    }
}

pub fn backend_name(backend: Backend) -> (r: &'static str)
    ensures
        r@ == backend_name_of(backend),
{
    match backend {
        Backend::IbusEngine => "ibus-engine",
        Backend::Wtype => "wtype",
        Backend::Xdotool => "xdotool",
        Backend::WlClipboard => "wl-copy",
        Backend::Xclip => "xclip",
        Backend::Xsel => "xsel",
        Backend::NotifySend => "notify-send",
        Backend::Unavailable => "unavailable",
    }
}

/// `seq![b]` when `present`, else nothing.
pub open spec fn when(present: bool, b: Backend) -> Seq<Backend> {
    if present {
        seq![b]
    } else {
        Seq::empty()
    }
}

/// The backends to try, best first, in a session of type `session`: the IBus engine on GNOME
/// Wayland when the bridge runs, `wtype` on other Wayland desktops, `xdotool` on X11, then the
/// clipboard tools and the notification, each only when `available` lists it; when none
/// qualifies, the single `Unavailable`.
pub open spec fn candidates_for(
    session: Seq<char>,
    gnome_wayland: bool,
    bridge_ready: bool,
    available: Seq<Backend>,
) -> Seq<Backend> {
    let list = when(
        bridge_ready && gnome_wayland && available.contains(Backend::IbusEngine),
        Backend::IbusEngine,
    ) + when(
        eq_ignore_case(session, "wayland"@) && !gnome_wayland && available.contains(Backend::Wtype),
        Backend::Wtype,
    ) + when(
        eq_ignore_case(session, "x11"@) && available.contains(Backend::Xdotool),
        Backend::Xdotool,
    ) + when(available.contains(Backend::WlClipboard), Backend::WlClipboard) + when(
        available.contains(Backend::Xclip),
        Backend::Xclip,
    ) + when(available.contains(Backend::Xsel), Backend::Xsel) + when(
        available.contains(Backend::NotifySend),
        Backend::NotifySend,
    );
    if list.len() == 0 {
        seq![Backend::Unavailable]
    } else {
        list
    }
}

/// The place of `b` in the order in which backends are preferred.
pub open spec fn backend_rank(b: Backend) -> int {
    match b {
        Backend::IbusEngine => 0,
        Backend::Wtype => 1,
        Backend::Xdotool => 2,
        Backend::WlClipboard => 3,
        Backend::Xclip => 4,
        Backend::Xsel => 5,
        Backend::NotifySend => 6,
        Backend::Unavailable => 7,
    }
}

/// Whether `s` lists backends in strictly preferred order.
pub open spec fn best_first(s: Seq<Backend>) -> bool {
    forall|i: int, j: int| 0 <= i < j < s.len() ==> backend_rank(s[i]) < backend_rank(s[j])
}

proof fn lemma_best_first_append(s: Seq<Backend>, present: bool, b: Backend)
    requires
        best_first(s),
        forall|i: int| 0 <= i < s.len() ==> backend_rank(#[trigger] s[i]) < backend_rank(b),
    ensures
        best_first(s + when(present, b)),
        forall|i: int|
            0 <= i < (s + when(present, b)).len() ==> backend_rank(#[trigger] (s + when(
                present,
                b,
            ))[i]) <= backend_rank(b),
{
    let t = s + when(present, b);
    assert forall|i: int, j: int| 0 <= i < j < t.len() implies backend_rank(t[i]) < backend_rank(
        t[j],
    ) by {
        if j >= s.len() {
            assert(t[j] == b);
            assert(t[i] == s[i]);
        } else {
            assert(t[i] == s[i] && t[j] == s[j]);
        }
    }
    assert forall|i: int| 0 <= i < t.len() implies backend_rank(#[trigger] t[i]) <= backend_rank(b) by {
        if i < s.len() {
            assert(t[i] == s[i]);
        }
    }
}

/// The backends are tried best first: the typing backends before the clipboard tools, those
/// before the notification, and none of them twice.
pub proof fn lemma_candidates_best_first(
    session: Seq<char>,
    gnome_wayland: bool,
    bridge_ready: bool,
    available: Seq<Backend>,
)
    ensures
        best_first(candidates_for(session, gnome_wayland, bridge_ready, available)),
{
    let a = available;
    let w1 = when(bridge_ready && gnome_wayland && a.contains(Backend::IbusEngine), Backend::IbusEngine);
    let e: Seq<Backend> = Seq::empty();
    lemma_best_first_append(e, bridge_ready && gnome_wayland && a.contains(Backend::IbusEngine), Backend::IbusEngine);
    assert(e + w1 =~= w1);
    let p2 = eq_ignore_case(session, "wayland"@) && !gnome_wayland && a.contains(Backend::Wtype);
    lemma_best_first_append(w1, p2, Backend::Wtype);
    let s2 = w1 + when(p2, Backend::Wtype);
    let p3 = eq_ignore_case(session, "x11"@) && a.contains(Backend::Xdotool);
    lemma_best_first_append(s2, p3, Backend::Xdotool);
    let s3 = s2 + when(p3, Backend::Xdotool);
    lemma_best_first_append(s3, a.contains(Backend::WlClipboard), Backend::WlClipboard);
    let s4 = s3 + when(a.contains(Backend::WlClipboard), Backend::WlClipboard);
    lemma_best_first_append(s4, a.contains(Backend::Xclip), Backend::Xclip);
    let s5 = s4 + when(a.contains(Backend::Xclip), Backend::Xclip);
    lemma_best_first_append(s5, a.contains(Backend::Xsel), Backend::Xsel);
    let s6 = s5 + when(a.contains(Backend::Xsel), Backend::Xsel);
    lemma_best_first_append(s6, a.contains(Backend::NotifySend), Backend::NotifySend);
}

proof fn lemma_contains_when(s: Seq<Backend>, present: bool, b: Backend, x: Backend)
    ensures
        (s + when(present, b)).contains(x) <==> (s.contains(x) || (present && x == b)),
{
    let t = s + when(present, b);
    if s.contains(x) {
        let i = choose|i: int| 0 <= i < s.len() && s[i] == x;
        assert(t[i] == x);
    }
    if present && x == b {
        assert(t[s.len() as int] == x);
    }
    if t.contains(x) {
        let i = choose|i: int| 0 <= i < t.len() && t[i] == x;
        if i < s.len() {
            assert(s[i] == x);
        }
    }
}

/// The backends listed before the fallback to `Unavailable`.
pub open spec fn listed_backends(
    session: Seq<char>,
    gnome_wayland: bool,
    bridge_ready: bool,
    available: Seq<Backend>,
) -> Seq<Backend> {
    when(bridge_ready && gnome_wayland && available.contains(Backend::IbusEngine), Backend::IbusEngine)
        + when(
        eq_ignore_case(session, "wayland"@) && !gnome_wayland && available.contains(Backend::Wtype),
        Backend::Wtype,
    ) + when(eq_ignore_case(session, "x11"@) && available.contains(Backend::Xdotool), Backend::Xdotool)
        + when(available.contains(Backend::WlClipboard), Backend::WlClipboard) + when(
        available.contains(Backend::Xclip),
        Backend::Xclip,
    ) + when(available.contains(Backend::Xsel), Backend::Xsel) + when(
        available.contains(Backend::NotifySend),
        Backend::NotifySend,
    )
}

proof fn lemma_listed_contains(
    session: Seq<char>,
    gnome_wayland: bool,
    bridge_ready: bool,
    available: Seq<Backend>,
    x: Backend,
)
    ensures
        listed_backends(session, gnome_wayland, bridge_ready, available).contains(x) <==> {
            ||| (x == Backend::IbusEngine && bridge_ready && gnome_wayland && available.contains(x))
            ||| (x == Backend::Wtype && eq_ignore_case(session, "wayland"@) && !gnome_wayland
                && available.contains(x))
            ||| (x == Backend::Xdotool && eq_ignore_case(session, "x11"@) && available.contains(x))
            ||| ((x == Backend::WlClipboard || x == Backend::Xclip || x == Backend::Xsel || x
                == Backend::NotifySend) && available.contains(x))
        },
{
    let a = available;
    let p1 = bridge_ready && gnome_wayland && a.contains(Backend::IbusEngine);
    let p2 = eq_ignore_case(session, "wayland"@) && !gnome_wayland && a.contains(Backend::Wtype);
    let p3 = eq_ignore_case(session, "x11"@) && a.contains(Backend::Xdotool);
    let e: Seq<Backend> = Seq::empty();
    lemma_contains_when(e, p1, Backend::IbusEngine, x);
    assert(e + when(p1, Backend::IbusEngine) =~= when(p1, Backend::IbusEngine));
    let s1 = when(p1, Backend::IbusEngine);
    lemma_contains_when(s1, p2, Backend::Wtype, x);
    let s2 = s1 + when(p2, Backend::Wtype);
    lemma_contains_when(s2, p3, Backend::Xdotool, x);
    let s3 = s2 + when(p3, Backend::Xdotool);
    lemma_contains_when(s3, a.contains(Backend::WlClipboard), Backend::WlClipboard, x);
    let s4 = s3 + when(a.contains(Backend::WlClipboard), Backend::WlClipboard);
    lemma_contains_when(s4, a.contains(Backend::Xclip), Backend::Xclip, x);
    let s5 = s4 + when(a.contains(Backend::Xclip), Backend::Xclip);
    lemma_contains_when(s5, a.contains(Backend::Xsel), Backend::Xsel, x);
    let s6 = s5 + when(a.contains(Backend::Xsel), Backend::Xsel);
    lemma_contains_when(s6, a.contains(Backend::NotifySend), Backend::NotifySend, x);
}

/// Something is always tried: the list is never empty and holds `Unavailable` only when it
/// holds nothing else; every other backend in it is one the system offers.
pub proof fn lemma_candidates_available(
    session: Seq<char>,
    gnome_wayland: bool,
    bridge_ready: bool,
    available: Seq<Backend>,
)
    ensures
        ({
            let c = candidates_for(session, gnome_wayland, bridge_ready, available);
            &&& c.len() >= 1
            &&& forall|i: int| 0 <= i < c.len() && c[i] == Backend::Unavailable ==> c.len() == 1
            &&& forall|i: int|
                0 <= i < c.len() && c[i] != Backend::Unavailable ==> available.contains(#[trigger] c[i])
        }),
{
    let l = listed_backends(session, gnome_wayland, bridge_ready, available);
    let c = candidates_for(session, gnome_wayland, bridge_ready, available);
    assert(c == (if l.len() == 0 {
        seq![Backend::Unavailable]
    } else {
        l
    }));
    assert forall|i: int| 0 <= i < l.len() implies #[trigger] l[i] != Backend::Unavailable
        && available.contains(l[i]) by {
        assert(l.contains(l[i]));
        lemma_listed_contains(session, gnome_wayland, bridge_ready, available, l[i]);
    }
}

/// The typing backends follow the desktop: the IBus engine only on GNOME Wayland with the
/// bridge running, `wtype` only on other Wayland sessions, `xdotool` only on X11. A clipboard
/// tool or the notification that the system offers is always among the fallbacks.
pub proof fn lemma_candidates_follow_desktop(
    session: Seq<char>,
    gnome_wayland: bool,
    bridge_ready: bool,
    available: Seq<Backend>,
)
    ensures
        ({
            let c = candidates_for(session, gnome_wayland, bridge_ready, available);
            &&& c.contains(Backend::IbusEngine) ==> gnome_wayland && bridge_ready
            &&& c.contains(Backend::Wtype) ==> !gnome_wayland && eq_ignore_case(session, "wayland"@)
            &&& c.contains(Backend::Xdotool) ==> eq_ignore_case(session, "x11"@)
            &&& available.contains(Backend::WlClipboard) ==> c.contains(Backend::WlClipboard)
            &&& available.contains(Backend::Xclip) ==> c.contains(Backend::Xclip)
            &&& available.contains(Backend::Xsel) ==> c.contains(Backend::Xsel)
            &&& available.contains(Backend::NotifySend) ==> c.contains(Backend::NotifySend)
        }),
{
    let l = listed_backends(session, gnome_wayland, bridge_ready, available);
    let c = candidates_for(session, gnome_wayland, bridge_ready, available);
    assert(c == (if l.len() == 0 {
        seq![Backend::Unavailable]
    } else {
        l
    }));
    lemma_listed_contains(session, gnome_wayland, bridge_ready, available, Backend::IbusEngine);
    lemma_listed_contains(session, gnome_wayland, bridge_ready, available, Backend::Wtype);
    lemma_listed_contains(session, gnome_wayland, bridge_ready, available, Backend::Xdotool);
    lemma_listed_contains(session, gnome_wayland, bridge_ready, available, Backend::WlClipboard);
    lemma_listed_contains(session, gnome_wayland, bridge_ready, available, Backend::Xclip);
    lemma_listed_contains(session, gnome_wayland, bridge_ready, available, Backend::Xsel);
    lemma_listed_contains(session, gnome_wayland, bridge_ready, available, Backend::NotifySend);
    if l.len() == 0 {
        let u: Seq<Backend> = seq![Backend::Unavailable];
        assert(!u.contains(Backend::IbusEngine));
        assert(!u.contains(Backend::Wtype));
        assert(!u.contains(Backend::Xdotool));
    }
}

/// Every backend reports a result of the kind its capability promises: typing backends report
/// typed text, clipboard tools copied text, the notification a shown text, and the lack of a
/// backend a failure.
pub proof fn lemma_result_kind_matches_capability(b: Backend)
    ensures
        capability_of(b) == INSERTION_CAPABILITY_TYPING@ <==> result_kind_of(b) == INSERTION_RESULT_TYPED@,
        capability_of(b) == INSERTION_CAPABILITY_CLIPBOARD_ONLY@ <==> result_kind_of(b)
            == INSERTION_RESULT_COPIED@,
        capability_of(b) == INSERTION_CAPABILITY_NOTIFICATION_ONLY@ <==> result_kind_of(b)
            == INSERTION_RESULT_NOTIFIED@,
        capability_of(b) == INSERTION_CAPABILITY_UNAVAILABLE@ <==> result_kind_of(b)
            == INSERTION_RESULT_FAILED@,
{
    reveal_strlit("typing");
    reveal_strlit("clipboard-only");
    reveal_strlit("notification-only");
    reveal_strlit("unavailable");
    reveal_strlit("typed");
    reveal_strlit("copied");
    reveal_strlit("notified");
    reveal_strlit("failed");
    assert(INSERTION_CAPABILITY_TYPING@[0] != INSERTION_CAPABILITY_CLIPBOARD_ONLY@[0]);
    assert(INSERTION_CAPABILITY_TYPING@[0] != INSERTION_CAPABILITY_NOTIFICATION_ONLY@[0]);
    assert(INSERTION_CAPABILITY_TYPING@[0] != INSERTION_CAPABILITY_UNAVAILABLE@[0]);
    assert(INSERTION_CAPABILITY_CLIPBOARD_ONLY@[0] != INSERTION_CAPABILITY_NOTIFICATION_ONLY@[0]);
    assert(INSERTION_CAPABILITY_CLIPBOARD_ONLY@[0] != INSERTION_CAPABILITY_UNAVAILABLE@[0]);
    assert(INSERTION_CAPABILITY_NOTIFICATION_ONLY@[0] != INSERTION_CAPABILITY_UNAVAILABLE@[0]);
    assert(INSERTION_RESULT_TYPED@[0] != INSERTION_RESULT_COPIED@[0]);
    assert(INSERTION_RESULT_TYPED@[0] != INSERTION_RESULT_NOTIFIED@[0]);
    assert(INSERTION_RESULT_TYPED@[0] != INSERTION_RESULT_FAILED@[0]);
    assert(INSERTION_RESULT_COPIED@[0] != INSERTION_RESULT_NOTIFIED@[0]);
    assert(INSERTION_RESULT_COPIED@[0] != INSERTION_RESULT_FAILED@[0]);
    assert(INSERTION_RESULT_NOTIFIED@[0] != INSERTION_RESULT_FAILED@[0]);
}

/// Whether `available` lists `b`.
fn has_backend(available: &[Backend], b: Backend) -> (r: bool)
    ensures
        r == available@.contains(b),
{
    let mut i: usize = 0;
    while i < available.len()
        invariant
            i <= available@.len(),
            forall|k: int| 0 <= k < i ==> available@[k] != b,
        decreases available@.len() - i,
    {
        if available[i] == b {
            assert(available@[i as int] == b);
            return true;
        }
        i = i + 1;
    }
    false
}

/// The backends to try, best first.
pub fn candidate_backends_for(
    session: &str,
    gnome_wayland: bool,
    bridge_ready: bool,
    available: &[Backend],
) -> (r: Vec<Backend>)
    ensures
        r@ == candidates_for(session@, gnome_wayland, bridge_ready, available@),
{
    let s = chars_of(session);
    let wayland = chars_of("wayland");
    let x11 = chars_of("x11");
    let mut backends: Vec<Backend> = Vec::new();
    if bridge_ready && gnome_wayland && has_backend(available, Backend::IbusEngine) {
        backends.push(Backend::IbusEngine);
    }
    let ghost s1 = backends@;
    if eq_ignore_case_chars(&s, &wayland) && !gnome_wayland && has_backend(
        available,
        Backend::Wtype,
    ) {
        backends.push(Backend::Wtype);
    }
    let ghost s2 = backends@;
    if eq_ignore_case_chars(&s, &x11) && has_backend(available, Backend::Xdotool) {
        backends.push(Backend::Xdotool);
    }
    let ghost s3 = backends@;
    if has_backend(available, Backend::WlClipboard) {
        backends.push(Backend::WlClipboard);
    }
    let ghost s4 = backends@;
    if has_backend(available, Backend::Xclip) {
        backends.push(Backend::Xclip);
    }
    let ghost s5 = backends@;
    if has_backend(available, Backend::Xsel) {
        backends.push(Backend::Xsel);
    }
    let ghost s6 = backends@;
    if has_backend(available, Backend::NotifySend) {
        backends.push(Backend::NotifySend);
    }
    proof {
        let a = available@;
        let w1 = when(
            bridge_ready && gnome_wayland && a.contains(Backend::IbusEngine),
            Backend::IbusEngine,
        );
        let w2 = when(
            eq_ignore_case(session@, "wayland"@) && !gnome_wayland && a.contains(Backend::Wtype),
            Backend::Wtype,
        );
        let w3 = when(
            eq_ignore_case(session@, "x11"@) && a.contains(Backend::Xdotool),
            Backend::Xdotool,
        );
        assert(s1 =~= w1);
        assert(s2 =~= w1 + w2);
        assert(s3 =~= w1 + w2 + w3);
        assert(s4 =~= w1 + w2 + w3 + when(a.contains(Backend::WlClipboard), Backend::WlClipboard));
        assert(s5 =~= w1 + w2 + w3 + when(a.contains(Backend::WlClipboard), Backend::WlClipboard)
            + when(a.contains(Backend::Xclip), Backend::Xclip));
        assert(s6 =~= w1 + w2 + w3 + when(a.contains(Backend::WlClipboard), Backend::WlClipboard)
            + when(a.contains(Backend::Xclip), Backend::Xclip) + when(
            a.contains(Backend::Xsel),
            Backend::Xsel,
        ));
        assert(backends@ =~= w1 + w2 + w3 + when(
            a.contains(Backend::WlClipboard),
            Backend::WlClipboard,
        ) + when(a.contains(Backend::Xclip), Backend::Xclip) + when(
            a.contains(Backend::Xsel),
            Backend::Xsel,
        ) + when(a.contains(Backend::NotifySend), Backend::NotifySend));
    }
    if backends.len() == 0 {
        backends.push(Backend::Unavailable);
        assert(backends@ =~= seq![Backend::Unavailable]);
    }
    backends
}

/// The backend that would be used first.
pub open spec fn first_backend(candidates: Seq<Backend>) -> Backend {
    if candidates.len() > 0 {
        candidates[0]
    } else {
        Backend::Unavailable
    }
}

/// The backend that would be used first among `candidates`.
pub fn detect_backend(candidates: &Vec<Backend>) -> (r: Backend)
    ensures
        r == first_backend(candidates@),
{
    if candidates.len() > 0 {
        candidates[0]
    } else {
        Backend::Unavailable
    }
}

/// How the insertion method is described: the backend's name, followed on GNOME Wayland by
/// what IBus reported of its engine and input context.
pub open spec fn method_description(
    backend: Backend,
    gnome_wayland: bool,
    context: Option<Seq<char>>,
    engine: Option<Seq<char>>,
) -> Seq<char> {
    let name = backend_name_of(backend);
    if gnome_wayland {
        match (context, engine) {
            (Some(c), Some(e)) => name + "; ibus:"@ + e + " @ "@ + c,
            (Some(c), None) => name + "; ibus-context:"@ + c,
            (None, Some(e)) => name + "; ibus:"@ + e,
            (None, None) => name,
        }
    } else {
        name
    }
}

/// How the insertion method is described, given what IBus reported of its current input
/// context and global engine (`None` where the query failed).
pub fn describe_method(
    backend: Backend,
    gnome_wayland: bool,
    context: Option<String>,
    engine: Option<String>,
) -> (r: String)
    ensures
        r@ == method_description(backend, gnome_wayland, opt_view(context), opt_view(engine)),
{
    let name = backend_name(backend);
    if gnome_wayland {
        match (context, engine) {
            (Some(c), Some(e)) => {
                let first = str_concat3(name, "; ibus:", e.as_str());
                return str_concat3(first.as_str(), " @ ", c.as_str());
            },
            (Some(c), None) => {
                return str_concat3(name, "; ibus-context:", c.as_str());
            },
            (None, Some(e)) => {
                return str_concat3(name, "; ibus:", e.as_str());
            },
            (None, None) => {},
        }
    }
    copy_string(name)
}

/// The insertion status for the backends `candidates` would try, with the method described
/// from what IBus reported.
pub fn probe(
    candidates: &Vec<Backend>,
    gnome_wayland: bool,
    context: Option<String>,
    engine: Option<String>,
) -> (r: InsertionStatus)
    ensures
        r.available == (first_backend(candidates@) != Backend::Unavailable),
        r.capability@ == capability_of(first_backend(candidates@)),
        r.method@ == method_description(
            first_backend(candidates@),
            gnome_wayland,
            opt_view(context),
            opt_view(engine),
        ),
{
    let backend = detect_backend(candidates);
    InsertionStatus {
        available: backend != Backend::Unavailable,
        capability: copy_string(capability_for_backend(backend)),
        method: describe_method(backend, gnome_wayland, context, engine),
    }
}

/// The message reported after `b` delivered text.
pub open spec fn success_message_of(b: Backend) -> Seq<char> {
    match b {
        Backend::IbusEngine => "Text committed through the SayWrite IBus engine."@,
        Backend::Wtype => "Text typed with wtype."@,
        Backend::Xdotool => "Text typed with xdotool."@,
        Backend::WlClipboard | Backend::Xclip | Backend::Xsel => "Transcript copied to the clipboard via "@
            + backend_name_of(b) + "."@,
        Backend::NotifySend => "Transcript shown as a desktop notification."@,
        Backend::Unavailable => Seq::empty(),
    }
}

/// What is reported after `backend` delivered text; the `Unavailable` backend delivers
/// nothing and gives the error that no backend is available.
pub fn backend_outcome(backend: Backend) -> (r: Result<InsertionOutcome, String>)
    ensures
        backend == Backend::Unavailable <==> r is Err,
        r matches Ok(o) ==> o.result_kind@ == result_kind_of(backend) && o.message@
            == success_message_of(backend),
        r matches Err(e) ==> e@ == "no insertion backend is available"@,
{
    let message = match backend {
        Backend::IbusEngine => copy_string("Text committed through the SayWrite IBus engine."),
        Backend::Wtype => copy_string("Text typed with wtype."),
        Backend::Xdotool => copy_string("Text typed with xdotool."),
        Backend::WlClipboard | Backend::Xclip | Backend::Xsel => str_concat3(
            "Transcript copied to the clipboard via ",
            backend_name(backend),
            ".",
        ),
        Backend::NotifySend => copy_string("Transcript shown as a desktop notification."),
        Backend::Unavailable => {
            return Err(copy_string("no insertion backend is available"));
        },
    };
    Ok(InsertionOutcome { result_kind: copy_string(result_kind_for_backend(backend)), message })
}

/// Whether `text` holds nothing but whitespace.
pub fn is_blank(text: &str) -> (r: bool)
    ensures
        r == (trim(text@).len() == 0),
{
    let t = chars_of(text);
    let trimmed = trim_chars(&t);
    trimmed.len() == 0
}

/// The line that records why `backend` failed.
pub fn backend_failure(backend: Backend, error: &str) -> (r: String)
    ensures
        r@ == backend_name_of(backend) + ": "@ + error@,
{
    str_concat3(backend_name(backend), ": ", error)
}

/// The parts joined with ` | `.
pub open spec fn joined_failures(failures: Seq<Seq<char>>) -> Seq<char> {
    crate::text::join(failures, " | "@)
}

/// The error reported when no backend delivered the text: that none is installed when none
/// was tried, otherwise every recorded failure.
pub open spec fn insertion_failure_text(failures: Seq<Seq<char>>) -> Seq<char> {
    if failures.len() == 0 {
        "No supported insertion backend found. Install wtype, wl-copy, xdotool, xclip, or xsel."@
    } else {
        "All insertion backends failed: "@ + joined_failures(failures)
    }
}

pub open spec fn string_views(v: Seq<String>) -> Seq<Seq<char>> {
    Seq::new(v.len(), |i: int| v[i]@)
}

/// The error reported when no backend delivered the text.
pub fn insertion_failure_message(failures: &Vec<String>) -> (r: String)
    ensures
        r@ == insertion_failure_text(string_views(failures@)),
{
    if failures.len() == 0 {
        return copy_string(
            "No supported insertion backend found. Install wtype, wl-copy, xdotool, xclip, or xsel.",
        );
    }
    let mut parts: Vec<Vec<char>> = Vec::new();
    let mut i: usize = 0;
    while i < failures.len()
        invariant
            i <= failures@.len(),
            crate::text::views(parts@) =~= string_views(failures@).take(i as int),
        decreases failures@.len() - i,
    {
        let ghost before = parts@;
        parts.push(chars_of(failures[i].as_str()));
        assert(crate::text::views(parts@) =~= crate::text::views(before).push(failures@[i as int]@));
        i = i + 1;
    }
    assert(string_views(failures@).take(failures@.len() as int) =~= string_views(failures@));
    let sep = chars_of(" | ");
    let joined = crate::text::join_chars(&parts, &sep);
    let mut out = chars_of("All insertion backends failed: ");
    push_all(&mut out, &joined);
    string_of(&out)
}

/// The text shown in a desktop notification: at most 300 characters of `text`, followed by
/// `...` when it was cut.
pub open spec fn preview_of(text: Seq<char>) -> Seq<char> {
    if text.len() > 300 {
        text.take(300) + "..."@
    } else {
        text
    }
}

/// The text shown in a desktop notification.
pub fn notification_preview(text: &str) -> (r: String)
    ensures
        r@ == preview_of(text@),
{
    let t = chars_of(text);
    if t.len() > 300 {
        let mut out: Vec<char> = Vec::new();
        push_range(&mut out, &t, 0, 300);
        let dots = chars_of("...");
        push_all(&mut out, &dots);
        assert(out@ =~= text@.take(300) + "..."@);
        string_of(&out)
    } else {
        string_of(&t)
    }
}

/// What is refused before any backend is tried: blank text.
pub fn check_insert_text(text: &str) -> (r: Result<(), String>)
    ensures
        r is Ok <==> trim(text@).len() > 0,
        r matches Err(m) ==> m@ == "No text was provided for insertion."@,
{
    if is_blank(text) {
        Err(copy_string("No text was provided for insertion."))
    } else {
        Ok(())
    }
}

/// The `notify-send` arguments that show `text` (cut to its preview) as the transcript.
pub open spec fn notify_args_for(text: Seq<char>) -> Seq<Seq<char>> {
    seq!["--app-name=SayWrite"@, "--expire-time=10000"@, "SayWrite Transcript"@, preview_of(text)]
}

/// The `notify-send` arguments that show `text` as the transcript.
pub fn notify_args(text: &str) -> (r: Vec<String>)
    ensures
        string_views(r@) == notify_args_for(text@),
{
    let mut a: Vec<String> = Vec::new();
    a.push(copy_string("--app-name=SayWrite"));
    a.push(copy_string("--expire-time=10000"));
    a.push(copy_string("SayWrite Transcript"));
    a.push(notification_preview(text));
    proof {
        assert(string_views(a@) =~= notify_args_for(text@));
    }
    a
}

/// The notification shown after text was copied to the clipboard.
pub open spec fn copied_notice() -> Seq<char> {
    "Transcript copied to the clipboard. Paste it into the focused field."@
}

/// How a backend delivers text.
#[derive(Debug, Clone)]
pub enum Invocation {
    /// Commit the text through the IBus bridge.
    IbusCommit,
    /// Run `command` with `args`; a failure is reported under `context`.
    Run { command: String, args: Vec<String>, context: String },
    /// Write the text to the standard input of the clipboard tool `tool` run with `args`, then
    /// show the copied notice as a notification.
    Clipboard { tool: String, args: Vec<String> },
    /// Run `notify-send` with `args`; a failure is reported under `context`.
    Notify { args: Vec<String>, context: String },
    /// Nothing can deliver the text.
    Nothing,
}

/// How `backend` delivers `text`.
pub open spec fn invocation_of(backend: Backend, text: Seq<char>) -> (
    Seq<char>,
    Seq<Seq<char>>,
    Seq<char>,
) {
    match backend {
        Backend::Wtype => ("wtype"@, seq![text], "Wayland text typing failed"@),
        Backend::Xdotool => (
            "xdotool"@,
            seq!["type"@, "--clearmodifiers"@, "--delay"@, "1"@, text],
            "X11 text typing failed"@,
        ),
        Backend::WlClipboard => ("wl-copy"@, Seq::empty(), Seq::empty()),
        Backend::Xclip => ("xclip"@, seq!["-selection"@, "clipboard"@], Seq::empty()),
        Backend::Xsel => ("xsel"@, seq!["--clipboard"@, "--input"@], Seq::empty()),
        Backend::NotifySend => ("notify-send"@, notify_args_for(text), "desktop notification failed"@),
        _ => (Seq::empty(), Seq::empty(), Seq::empty()),
    }
}

/// How `backend` delivers `text`: the command, its arguments and the context of its errors, as
/// `invocation_of` lists them for the backends that run a command.
pub fn backend_invocation(backend: Backend, text: &str) -> (r: Invocation)
    ensures
        backend == Backend::IbusEngine ==> r is IbusCommit,
        backend == Backend::Unavailable ==> r is Nothing,
        (backend == Backend::Wtype || backend == Backend::Xdotool) ==> (r matches Invocation::Run {
            command,
            args,
            context,
        } && (command@, string_views(args@), context@) == invocation_of(backend, text@)),
        (backend == Backend::WlClipboard || backend == Backend::Xclip || backend == Backend::Xsel)
            ==> (r matches Invocation::Clipboard { tool, args } && tool@ == invocation_of(
            backend,
            text@,
        ).0 && string_views(args@) == invocation_of(backend, text@).1),
        backend == Backend::NotifySend ==> (r matches Invocation::Notify { args, context }
            && string_views(args@) == notify_args_for(text@) && context@
            == "desktop notification failed"@),
        backend == Backend::Wtype ==> (r matches Invocation::Run { command, args, context }
            && command@ == "wtype"@ && string_views(args@) == seq![text@] && context@
            == "Wayland text typing failed"@),
        backend == Backend::Xdotool ==> (r matches Invocation::Run { command, args, context }
            && command@ == "xdotool"@ && string_views(args@) == seq![
            "type"@,
            "--clearmodifiers"@,
            "--delay"@,
            "1"@,
            text@,
        ] && context@ == "X11 text typing failed"@),
        backend == Backend::WlClipboard ==> (r matches Invocation::Clipboard { tool, args }
            && tool@ == "wl-copy"@ && args@.len() == 0),
        backend == Backend::Xclip ==> (r matches Invocation::Clipboard { tool, args } && tool@
            == "xclip"@ && string_views(args@) == seq!["-selection"@, "clipboard"@]),
        backend == Backend::Xsel ==> (r matches Invocation::Clipboard { tool, args } && tool@
            == "xsel"@ && string_views(args@) == seq!["--clipboard"@, "--input"@]),
{
    match backend {
        Backend::IbusEngine => Invocation::IbusCommit,
        Backend::Wtype => {
            let mut args: Vec<String> = Vec::new();
            args.push(copy_string(text));
            proof {
                assert(string_views(args@) =~= seq![text@]);
            }
            Invocation::Run {
                command: copy_string("wtype"),
                args,
                context: copy_string("Wayland text typing failed"),
            }
        },
        Backend::Xdotool => {
            let mut args: Vec<String> = Vec::new();
            args.push(copy_string("type"));
            args.push(copy_string("--clearmodifiers"));
            args.push(copy_string("--delay"));
            args.push(copy_string("1"));
            args.push(copy_string(text));
            proof {
                assert(string_views(args@) =~= seq!["type"@, "--clearmodifiers"@, "--delay"@, "1"@, text@]);
            }
            Invocation::Run {
                command: copy_string("xdotool"),
                args,
                context: copy_string("X11 text typing failed"),
            }
        },
        Backend::WlClipboard => {
            let args: Vec<String> = Vec::new();
            proof {
                assert(string_views(args@) =~= Seq::<Seq<char>>::empty());
            }
            Invocation::Clipboard { tool: copy_string("wl-copy"), args }
        },
        Backend::Xclip => {
            let mut args: Vec<String> = Vec::new();
            args.push(copy_string("-selection"));
            args.push(copy_string("clipboard"));
            proof {
                assert(string_views(args@) =~= seq!["-selection"@, "clipboard"@]);
            }
            Invocation::Clipboard { tool: copy_string("xclip"), args }
        },
        Backend::Xsel => {
            let mut args: Vec<String> = Vec::new();
            args.push(copy_string("--clipboard"));
            args.push(copy_string("--input"));
            proof {
                assert(string_views(args@) =~= seq!["--clipboard"@, "--input"@]);
            }
            Invocation::Clipboard { tool: copy_string("xsel"), args }
        },
        Backend::NotifySend => Invocation::Notify {
            args: notify_args(text),
            context: copy_string("desktop notification failed"),
        },
        Backend::Unavailable => Invocation::Nothing,
    }
}

} // verus!
