//! What the desktop integration decides: reading IBus replies, recognising the desktop
//! session, turning a shortcut label into a GNOME key binding, and describing whether the
//! global dictation shortcut is armed.
use vstd::prelude::*;

use crate::config::{opt_view, AppSettings};
use crate::insertion::is_blank;
use crate::text::{
    find_from, lemma_index_of_from, occurs_at, decimal, decimal_string, str_eq, copy_string, chars_eq, chars_of, contains, ends_with, ends_with_chars, eq_ignore_case, eq_ignore_case_chars, find,
    find_chars, head_chars, index_of, index_of_char, join, lower_all, lower_chars, push_all,
    replace_all, replace_chars, split_chars, split_on, str_concat, str_concat3, string_of,
    strip_char, strip_char_chars, strip_char_start, tail_chars, trim, trim_chars, views,
};

verus! {

// ---------------------------------------------------------------------------
// IBus replies
// ---------------------------------------------------------------------------

pub open spec fn object_path_marker() -> Seq<char> {
    "objectpath '"@
}

pub open spec fn engine_desc_marker() -> Seq<char> {
    "IBusEngineDesc',"@
}

/// The object path in a `gdbus call` reply: the text after the first `objectpath '` up to
/// the next single quote.
pub open spec fn object_path_in(text: Seq<char>) -> Option<Seq<char>> {
    match find(text, object_path_marker()) {
        None => None,
        Some(i) => {
            let rest = text.skip(i + object_path_marker().len());
            match index_of(rest, '\'') {
                None => None,
                Some(e) => Some(rest.take(e)),
            }
        },
    }
}

/// The engine name in a `GetGlobalEngine` reply: the first single-quoted text after the
/// first `IBusEngineDesc',`.
pub open spec fn engine_name_in(text: Seq<char>) -> Option<Seq<char>> {
    match find(text, engine_desc_marker()) {
        None => None,
        Some(i) => {
            let rest = text.skip(i + engine_desc_marker().len());
            match index_of(rest, '\'') {
                None => None,
                Some(q) => {
                    let inner = rest.skip(q + 1);
                    match index_of(inner, '\'') {
                        None => None,
                        Some(e) => Some(inner.take(e)),
                    }
                },
            }
        },
    }
}

proof fn lemma_first_quote(p: Seq<char>, tail: Seq<char>)
    requires
        forall|k: int| 0 <= k < p.len() ==> p[k] != '\'',
        tail.len() > 0,
        tail[0] == '\'',
    ensures
        index_of(p + tail, '\'') == Some(p.len() as int),
{
    let t = p + tail;
    lemma_index_of_from(t, '\'', 0);
    assert(t[p.len() as int] == '\'');
    match index_of(t, '\'') {
        Some(j) => {
            if j < p.len() {
                assert(t[j] == p[j]);
            }
        },
        None => {},
    }
}

/// The reply of `CurrentInputContext` gives back the object path it names: for a path without
/// single quotes, `(objectpath '<path>',)` reads as that path.
pub proof fn lemma_object_path_round_trip(path: Seq<char>)
    requires
        forall|k: int| 0 <= k < path.len() ==> path[k] != '\'',
    ensures
        object_path_in(seq!['('] + object_path_marker() + path + seq!['\'', ',', ')']) == Some(path),
{
    reveal_strlit("objectpath '");
    let m = object_path_marker();
    let text = seq!['('] + m + path + seq!['\'', ',', ')'];
    assert(!occurs_at(text, m, 0, false)) by {
        assert(text[0] == '(');
        assert(m[0] == 'o');
        assert(text[0int + 0int] != m[0]);
    }
    assert(occurs_at(text, m, 1, false)) by {
        assert forall|k: int| 0 <= k < m.len() implies text[1 + k] == m[k] by {
            assert(text[1 + k] == (seq!['('] + m)[1 + k]);
        }
    }
    assert(find_from(text, m, 1) == Some(1int));
    assert(find(text, m) == Some(1int));
    let rest = text.skip(1 + m.len() as int);
    assert(rest =~= path + seq!['\'', ',', ')']);
    lemma_first_quote(path, seq!['\'', ',', ')']);
    assert(rest.take(path.len() as int) =~= path);
}

/// The reply of `GetGlobalEngine` gives back the engine it names: for an engine name without
/// single quotes, a description that starts `(<'IBusEngineDesc', {}, '<name>'` reads as that
/// name, whatever follows.
pub proof fn lemma_engine_name_round_trip(name: Seq<char>, rest: Seq<char>)
    requires
        forall|k: int| 0 <= k < name.len() ==> name[k] != '\'',
    ensures
        engine_name_in(seq!['(', '<', '\''] + engine_desc_marker() + seq![' ', '{', '}', ',', ' ', '\'']
            + name + seq!['\''] + rest) == Some(name),
{
    reveal_strlit("IBusEngineDesc',");
    let m = engine_desc_marker();
    let head = seq!['(', '<', '\''];
    let mid = seq![' ', '{', '}', ',', ' ', '\''];
    let text = head + m + mid + name + seq!['\''] + rest;
    assert(m[0] == 'I');
    assert(!occurs_at(text, m, 0, false)) by {
        assert(text[0] == '(');
        assert(text[0int + 0int] != m[0]);
    }
    assert(!occurs_at(text, m, 1, false)) by {
        assert(text[1] == '<');
        assert(text[1int + 0int] != m[0]);
    }
    assert(!occurs_at(text, m, 2, false)) by {
        assert(text[2] == '\'');
        assert(text[2int + 0int] != m[0]);
    }
    assert(occurs_at(text, m, 3, false)) by {
        assert forall|k: int| 0 <= k < m.len() implies text[3 + k] == m[k] by {
            assert(text[3 + k] == (head + m)[3 + k]);
        }
    }
    assert(find_from(text, m, 3) == Some(3int));
    assert(find_from(text, m, 2) == Some(3int));
    assert(find_from(text, m, 1) == Some(3int));
    assert(find(text, m) == Some(3int));
    let after = text.skip(3 + m.len() as int);
    assert(after =~= mid + (name + seq!['\''] + rest));
    let q = index_of(after, '\'');
    lemma_first_quote(seq![' ', '{', '}', ',', ' '], seq!['\''] + name + seq!['\''] + rest);
    assert(seq![' ', '{', '}', ',', ' '] + (seq!['\''] + name + seq!['\''] + rest) =~= after);
    assert(q == Some(5int));
    let inner = after.skip(6);
    assert(inner =~= name + (seq!['\''] + rest));
    lemma_first_quote(name, seq!['\''] + rest);
    assert(inner.take(name.len() as int) =~= name);
}

/// The object path in a `gdbus call` reply, if it holds one.
pub fn parse_object_path(text: &str) -> (r: Option<String>)
    ensures
        opt_view(r) == object_path_in(text@),
{
    let t = chars_of(text);
    let marker = chars_of("objectpath '");
    assert(marker@ == object_path_marker());
    let found = find_chars(&t, &marker);
    if found.is_none() {
        return None;
    }
    let i = found.unwrap();
    let tl = t.len();
    assert(i + marker@.len() <= tl);
    let start = i + marker.len();
    let rest = tail_chars(&t, start);
    let end = index_of_char(&rest, '\'');
    if end.is_none() {
        return None;
    }
    let e = end.unwrap();
    let path = head_chars(&rest, e);
    Some(string_of(&path))
}

/// The engine name in a `GetGlobalEngine` reply, if it holds one.
pub fn parse_engine_name(text: &str) -> (r: Option<String>)
    ensures
        opt_view(r) == engine_name_in(text@),
{
    let t = chars_of(text);
    let marker = chars_of("IBusEngineDesc',");
    assert(marker@ == engine_desc_marker());
    let found = find_chars(&t, &marker);
    if found.is_none() {
        return None;
    }
    let i = found.unwrap();
    let tl = t.len();
    assert(i + marker@.len() <= tl);
    let start = i + marker.len();
    let rest = tail_chars(&t, start);
    let quote = index_of_char(&rest, '\'');
    if quote.is_none() {
        return None;
    }
    let q = quote.unwrap();
    let inner = tail_chars(&rest, q + 1);
    let end = index_of_char(&inner, '\'');
    if end.is_none() {
        return None;
    }
    let e = end.unwrap();
    let name = head_chars(&inner, e);
    Some(string_of(&name))
}

// ---------------------------------------------------------------------------
// IBus bridge
// ---------------------------------------------------------------------------

/// The bus name under which the dictation engine registers with IBus.
pub const COMPONENT_NAME: &'static str = "io.github.saywrite.IBus";

/// The name of the dictation engine.
pub const ENGINE_NAME: &'static str = "io.github.saywrite.Engine";

/// Where the engine factory is served.
pub const FACTORY_PATH: &'static str = "/org/freedesktop/IBus/Factory";

/// Where the dictation engine is served.
pub const ENGINE_PATH: &'static str = "/org/freedesktop/IBus/engine/saywrite/1";

/// The IBus daemon's bus name.
pub const IBUS_DEST: &'static str = "org.freedesktop.IBus";

/// The IBus daemon's object path.
pub const IBUS_PATH: &'static str = "/org/freedesktop/IBus";

/// The IBus daemon's interface.
pub const IBUS_IFACE: &'static str = "org.freedesktop.IBus";

/// The engine restored after a commit when IBus does not name the one in use.
pub const FALLBACK_ENGINE: &'static str = "xkb:us::eng";

/// What the engine answers once it has committed the text.
pub const COMMIT_CONFIRMATION: &'static str = "Text committed through the SayWrite IBus engine.";

/// The IBus daemon's address in the output of `ibus address`, unless the output says that no
/// daemon runs.
pub open spec fn ibus_address_in(stdout: Seq<char>) -> Option<Seq<char>> {
    let a = trim(stdout);
    if a.len() == 0 || a == "(null)"@ {
        None
    } else {
        Some(a)
    }
}

/// The IBus daemon's address in the output of `ibus address`, if a daemon runs.
pub fn parse_ibus_address(stdout: &str) -> (r: Option<String>)
    ensures
        opt_view(r) == ibus_address_in(stdout@),
{
    let c = chars_of(stdout);
    let a = trim_chars(&c);
    let null = chars_of("(null)");
    if a.len() == 0 || chars_eq(&a, &null) {
        None
    } else {
        Some(string_of(&a))
    }
}

/// The object path of the engine the factory is asked to create by `name`, or why it cannot
/// create it.
pub fn engine_path_for(name: &str) -> (r: Result<String, String>)
    ensures
        name@ == ENGINE_NAME@ ==> (r matches Ok(p) && p@ == ENGINE_PATH@),
        name@ != ENGINE_NAME@ ==> (r matches Err(m) && m@ == "SayWrite cannot create unknown engine "@
            + name@),
{
    if str_eq(name, ENGINE_NAME) {
        Ok(copy_string(ENGINE_PATH))
    } else {
        Err(str_concat("SayWrite cannot create unknown engine ", name))
    }
}

/// Text waiting for the dictation engine to be focused, and the engine to restore afterwards.
#[derive(Debug)]
pub struct PendingCommit {
    pub text: String,
    pub previous_engine: String,
}

/// How the wait for the dictation engine to commit the text ended.
#[derive(Debug)]
pub enum CommitWait {
    /// The engine committed the text and answered with this message.
    Committed(String),
    /// The engine refused with this message.
    Refused(String),
    /// The engine let go of the pending text without answering.
    Dropped,
    /// The engine did not answer in time.
    TimedOut,
}

/// The commit in flight through the IBus bridge, if any.
#[derive(Debug)]
pub struct IbusBridge {
    pub pending_commit: Option<PendingCommit>,
}

pub open spec fn no_text_text() -> Seq<char> {
    "No text was provided for IBus insertion."@
}

pub open spec fn no_context_text() -> Seq<char> {
    "no focused IBus input context is available"@
}

pub open spec fn already_committing_text() -> Seq<char> {
    "SayWrite is already committing text through the IBus bridge"@
}

/// The engine to restore after a commit: the one IBus named, or the US keyboard.
pub open spec fn previous_engine_for(global_engine: Option<Seq<char>>) -> Seq<char> {
    match global_engine {
        Some(e) => e,
        None => FALLBACK_ENGINE@,
    }
}

/// What a commit that did not go through reports.
pub open spec fn commit_wait_result(wait: CommitWait) -> Result<Seq<char>, Seq<char>> {
    match wait {
        CommitWait::Committed(m) => Ok(m@),
        CommitWait::Refused(m) => Err(m@),
        CommitWait::Dropped => Err("SayWrite IBus engine dropped the pending commit"@),
        CommitWait::TimedOut => Err("Timed out waiting for the SayWrite IBus engine to commit text"@),
    }
}

impl IbusBridge {
    /// A bridge with nothing to commit.
    pub fn new() -> (r: IbusBridge)
        ensures
            r.pending_commit is None,
    {
        IbusBridge { pending_commit: None }
    }

    /// Queues `text` for the dictation engine. It is refused when it is blank, when no input
    /// context has focus (`input_context_found`), or while another commit is in flight;
    /// otherwise it is queued with the engine to restore afterwards (`global_engine`, the
    /// engine IBus named as in use, if it named one), which is returned.
    pub fn begin_commit(
        &mut self,
        text: &str,
        input_context_found: bool,
        global_engine: Option<String>,
    ) -> (r: Result<String, String>)
        ensures
            trim(text@).len() == 0 ==> (r matches Err(m) && m@ == no_text_text()),
            trim(text@).len() != 0 && !input_context_found ==> (r matches Err(m) && m@
                == no_context_text()),
            trim(text@).len() != 0 && input_context_found && old(self).pending_commit is Some ==> (
            r matches Err(m) && m@ == already_committing_text()),
            r is Err ==> final(self).pending_commit == old(self).pending_commit,
            trim(text@).len() != 0 && input_context_found && old(self).pending_commit is None ==> {
                &&& r matches Ok(prev) && prev@ == previous_engine_for(opt_view(global_engine))
                &&& final(self).pending_commit matches Some(p) && p.text@ == text@
                    && p.previous_engine@ == previous_engine_for(opt_view(global_engine))
            },
    {
        if is_blank(text) {
            return Err(copy_string("No text was provided for IBus insertion."));
        }
        if !input_context_found {
            return Err(copy_string("no focused IBus input context is available"));
        }
        let previous_engine = match global_engine {
            Some(e) => e,
            None => copy_string(FALLBACK_ENGINE),
        };
        if self.pending_commit.is_some() {
            return Err(copy_string("SayWrite is already committing text through the IBus bridge"));
        }
        let answer = copy_string(previous_engine.as_str());
        self.pending_commit = Some(PendingCommit { text: copy_string(text), previous_engine });
        Ok(answer)
    }

    /// Drops the queued text, when the dictation engine could not be activated.
    pub fn clear_pending_commit(&mut self)
        ensures
            final(self).pending_commit is None,
    {
        self.pending_commit = None;
    }

    /// Hands the queued text to the focused dictation engine, which commits it and restores the
    /// previous engine.
    pub fn flush_pending_commit(&mut self) -> (r: Option<PendingCommit>)
        ensures
            r == old(self).pending_commit,
            final(self).pending_commit is None,
    {
        let pending = self.pending_commit.take();
        pending
    }

    /// What a commit reports once the wait for the engine has ended. A commit that did not go
    /// through drops whatever is still queued, and its caller restores the previous engine.
    pub fn finish_commit(&mut self, wait: CommitWait) -> (r: Result<String, String>)
        ensures
            match (r, commit_wait_result(wait)) {
                (Ok(a), Ok(b)) => a@ == b,
                (Err(a), Err(b)) => a@ == b,
                _ => false,
            },
            r is Ok ==> final(self).pending_commit == old(self).pending_commit,
            r is Err ==> final(self).pending_commit is None,
    {
        match wait {
            CommitWait::Committed(message) => Ok(message),
            CommitWait::Refused(message) => {
                self.pending_commit = None;
                Err(message)
            },
            CommitWait::Dropped => {
                self.pending_commit = None;
                Err(copy_string("SayWrite IBus engine dropped the pending commit"))
            },
            CommitWait::TimedOut => {
                self.pending_commit = None;
                Err(copy_string("Timed out waiting for the SayWrite IBus engine to commit text"))
            },
        }
    }
}

// ---------------------------------------------------------------------------
// Desktop session
// ---------------------------------------------------------------------------

/// Whether `XDG_CURRENT_DESKTOP` names GNOME among its colon-separated entries.
pub open spec fn names_gnome(desktop: Seq<char>) -> bool {
    exists|i: int| 0 <= i < split_on(desktop, ":"@).len() && eq_ignore_case(
        #[trigger] split_on(desktop, ":"@)[i],
        "gnome"@,
    )
}

/// Whether `XDG_SESSION_TYPE` (absent when unset) says Wayland.
pub open spec fn is_wayland(session: Option<Seq<char>>) -> bool {
    match session {
        Some(s) => eq_ignore_case(s, "wayland"@),
        None => false,
    }
}

/// Whether the colon-separated desktop list names GNOME, ignoring ASCII case.
pub fn desktop_is_gnome(desktop: &str) -> (r: bool)
    ensures
        r == names_gnome(desktop@),
{
    let d = chars_of(desktop);
    let colon = chars_of(":");
    let gnome = chars_of("gnome");
    proof {
        reveal_strlit(":");
    }
    let parts = split_chars(&d, &colon);
    let ghost p = views(parts@);
    let mut i: usize = 0;
    while i < parts.len()
        invariant
            i <= parts@.len(),
            p == views(parts@),
            p == split_on(d@, colon@),
            gnome@ == "gnome"@,
            colon@ == ":"@,
            d@ == desktop@,
            forall|k: int| 0 <= k < i ==> !eq_ignore_case(#[trigger] p[k], gnome@),
        decreases parts@.len() - i,
    {
        if eq_ignore_case_chars(&parts[i], &gnome) {
            assert(eq_ignore_case(p[i as int], gnome@));
            assert(gnome@ == "gnome"@);
            assert(colon@ == ":"@);
            assert(eq_ignore_case(split_on(desktop@, ":"@)[i as int], "gnome"@));
            return true;
        }
        i = i + 1;
    }
    false
}

/// Whether direct typing through IBus is the preferred path here: the session type
/// (`XDG_SESSION_TYPE`, `None` when unset) is Wayland.
pub fn preferred_on_this_desktop(session: Option<&str>) -> (r: bool)
    ensures
        r == is_wayland(match session {
            Some(s) => Some(s@),
            None => None,
        }),
{
    match session {
        Some(s) => {
            let v = chars_of(s);
            let w = chars_of("wayland");
            eq_ignore_case_chars(&v, &w)
        },
        None => false,
    }
}

/// Whether this is a GNOME Wayland session, from `XDG_CURRENT_DESKTOP` and
/// `XDG_SESSION_TYPE` (`None` when unset).
pub fn gnome_wayland(desktop: Option<&str>, session: Option<&str>) -> (r: bool)
    ensures
        r == (names_gnome(match desktop {
            Some(d) => d@,
            None => Seq::empty(),
        }) && is_wayland(match session {
            Some(s) => Some(s@),
            None => None,
        })),
{
    let gnome = match desktop {
        Some(d) => desktop_is_gnome(d),
        None => {
            let r = desktop_is_gnome("");
            assert(""@ =~= Seq::<char>::empty()) by {
                reveal_strlit("");
            }
            r
        },
    };
    gnome && preferred_on_this_desktop(session)
}

// ---------------------------------------------------------------------------
// Shortcut labels and GNOME key bindings
// ---------------------------------------------------------------------------

/// The modifiers and the key that the `+`-separated parts of a shortcut label give:
/// `super`, `ctrl`/`control`, `alt` and `shift` (any ASCII case, surrounding whitespace
/// ignored) add `<Super>`, `<Primary>`, `<Alt>`, `<Shift>`; any other non-empty part,
/// lower-cased, becomes the key, the last such part winning.
pub open spec fn binding_parts(parts: Seq<Seq<char>>) -> (Seq<char>, Seq<char>)
    decreases parts.len(),
{
    if parts.len() == 0 {
        (Seq::empty(), Seq::empty())
    } else {
        let (mods, key) = binding_parts(parts.drop_last());
        let w = lower_all(trim(parts.last()));
        if w == "super"@ {
            (mods + "<Super>"@, key)
        } else if w == "ctrl"@ || w == "control"@ {
            (mods + "<Primary>"@, key)
        } else if w == "alt"@ {
            (mods + "<Alt>"@, key)
        } else if w == "shift"@ {
            (mods + "<Shift>"@, key)
        } else if w.len() > 0 {
            (mods, w)
        } else {
            (mods, key)
        }
    }
}

/// The GNOME key binding for a shortcut label such as `Super+Alt+D`: the modifiers in the
/// order given, then the key, `d` when the label names none.
pub open spec fn gnome_binding(label: Seq<char>) -> Seq<char> {
    let (mods, key) = binding_parts(split_on(label, "+"@));
    mods + (if key.len() == 0 {
        "d"@
    } else {
        key
    })
}

/// Every shortcut label gives a binding with a key: the binding is never empty.
pub proof fn lemma_gnome_binding_has_key(label: Seq<char>)
    ensures
        gnome_binding(label).len() > 0,
{
    reveal_strlit("d");
}

/// The GNOME key binding for a shortcut label.
pub fn shortcut_to_gnome_binding(label: &str) -> (r: String)
    ensures
        r@ == gnome_binding(label@),
{
    let l = chars_of(label);
    let plus = chars_of("+");
    proof {
        reveal_strlit("+");
    }
    let parts = split_chars(&l, &plus);
    let ghost p = views(parts@);
    let super_w = chars_of("super");
    let ctrl_w = chars_of("ctrl");
    let control_w = chars_of("control");
    let alt_w = chars_of("alt");
    let shift_w = chars_of("shift");
    let super_m = chars_of("<Super>");
    let primary_m = chars_of("<Primary>");
    let alt_m = chars_of("<Alt>");
    let shift_m = chars_of("<Shift>");
    let mut modifiers: Vec<char> = Vec::new();
    let mut key: Vec<char> = Vec::new();
    let mut i: usize = 0;
    assert(p.take(0) =~= Seq::<Seq<char>>::empty());
    while i < parts.len()
        invariant
            i <= parts@.len(),
            p == views(parts@),
            super_w@ == "super"@,
            ctrl_w@ == "ctrl"@,
            control_w@ == "control"@,
            alt_w@ == "alt"@,
            shift_w@ == "shift"@,
            super_m@ == "<Super>"@,
            primary_m@ == "<Primary>"@,
            alt_m@ == "<Alt>"@,
            shift_m@ == "<Shift>"@,
            (modifiers@, key@) == binding_parts(p.take(i as int)),
        decreases parts@.len() - i,
    {
        let trimmed = trim_chars(&parts[i]);
        let w = lower_chars(&trimmed);
        proof {
            assert(p.take(i + 1).drop_last() =~= p.take(i as int));
            assert(p.take(i + 1).last() == p[i as int]);
        }
        if chars_eq(&w, &super_w) {
            push_all(&mut modifiers, &super_m);
        } else if chars_eq(&w, &ctrl_w) || chars_eq(&w, &control_w) {
            push_all(&mut modifiers, &primary_m);
        } else if chars_eq(&w, &alt_w) {
            push_all(&mut modifiers, &alt_m);
        } else if chars_eq(&w, &shift_w) {
            push_all(&mut modifiers, &shift_m);
        } else if w.len() > 0 {
            key = w;
        }
        i = i + 1;
    }
    assert(p.take(parts@.len() as int) =~= p);
    if key.len() == 0 {
        key.push('d');
        proof {
            reveal_strlit("d");
            assert(key@ =~= "d"@);
        }
    }
    push_all(&mut modifiers, &key);
    string_of(&modifiers)
}

/// The text of the hint that tells how to bind `shortcut` by hand.
pub open spec fn custom_hint_text(shortcut: Seq<char>) -> Seq<char> {
    "Create a desktop shortcut for `"@ + shortcut
        + "` that runs: busctl --user call io.github.saywrite.Host /io/github/saywrite/Host io.github.saywrite.Host ToggleDictation"@
}

/// The text of the hint that tells how to install the GNOME fallback shortcut.
pub open spec fn gnome_hint_text() -> Seq<char> {
    "Install the GNOME fallback shortcut with: bash scripts/install-gnome-shortcut.sh"@
}

pub fn custom_shortcut_hint(shortcut: &str) -> (r: String)
    ensures
        r@ == custom_hint_text(shortcut@),
{
    str_concat3(
        "Create a desktop shortcut for `",
        shortcut,
        "` that runs: busctl --user call io.github.saywrite.Host /io/github/saywrite/Host io.github.saywrite.Host ToggleDictation",
    )
}

pub fn gnome_shortcut_hint() -> (r: String)
    ensures
        r@ == gnome_hint_text(),
{
    crate::text::copy_string(
        "Install the GNOME fallback shortcut with: bash scripts/install-gnome-shortcut.sh",
    )
}

/// A value read with `gsettings get`: the output trimmed and without surrounding single quotes.
pub open spec fn gsettings_value_of(stdout: Seq<char>) -> Seq<char> {
    strip_char(trim(stdout), '\'')
}

/// The value in the output of `gsettings get`.
pub fn gsettings_value(stdout: &str) -> (r: String)
    ensures
        r@ == gsettings_value_of(stdout@),
{
    let s = chars_of(stdout);
    let t = trim_chars(&s);
    let u = strip_char_chars(&t, '\'');
    string_of(&u)
}

/// Whether the GNOME fallback keybinding is in place for `shortcut`: its command is the
/// packaged launcher or a checkout's launcher script, and its binding is the one for
/// `shortcut`.
pub open spec fn gnome_shortcut_ready(
    shortcut: Seq<char>,
    command: Option<Seq<char>>,
    binding: Option<Seq<char>>,
) -> bool {
    match (command, binding) {
        (Some(c), Some(b)) => (c == "/usr/bin/saywrite-dictation.sh"@ || ends_with(
            c,
            "/scripts/run-global-dictation.sh"@,
        )) && b == gnome_binding(shortcut),
        _ => false,
    }
}

/// Whether the GNOME fallback keybinding, whose command and binding fields were read as
/// `command` and `binding`, is in place for `shortcut`.
pub fn gnome_shortcut_active(shortcut: &str, command: Option<&str>, binding: Option<&str>) -> (r:
    bool)
    ensures
        r == gnome_shortcut_ready(
            shortcut@,
            match command {
                Some(c) => Some(c@),
                None => None,
            },
            match binding {
                Some(b) => Some(b@),
                None => None,
            },
        ),
{
    let (command, binding) = match (command, binding) {
        (Some(c), Some(b)) => (c, b),
        _ => return false,
    };
    let c = chars_of(command);
    let packaged = chars_of("/usr/bin/saywrite-dictation.sh");
    let script = chars_of("/scripts/run-global-dictation.sh");
    let command_ready = chars_eq(&c, &packaged) || ends_with_chars(&c, &script);
    let expected = shortcut_to_gnome_binding(shortcut);
    let b = chars_of(binding);
    let e = chars_of(expected.as_str());
    command_ready && chars_eq(&b, &e)
}

// ---------------------------------------------------------------------------
// Hotkey status
// ---------------------------------------------------------------------------

/// Whether the global dictation shortcut is armed, and what to tell the user.
#[derive(Debug, Clone)]
pub struct HotkeyStatus {
    pub active: bool,
    pub message: String,
    pub setup_hint: String,
}

/// What was found out about the ways to arm the shortcut.
#[derive(Debug, Clone, Copy)]
pub struct HotkeyEnvironment {
    /// The GlobalShortcuts portal has bound the shortcut in this process.
    pub portal_active: bool,
    /// The session bus offers the GlobalShortcuts portal interface.
    pub portal_available: bool,
    /// The desktop is GNOME.
    pub gnome_desktop: bool,
    /// The GNOME fallback keybinding is in place for the shortcut.
    pub gnome_shortcut_active: bool,
}

/// The hotkey status for `shortcut` in environment `env`, checked in order: the portal is
/// active; the portal is there but not yet bound; on GNOME the fallback binding is or is not
/// in place; otherwise nothing arms the shortcut.
pub open spec fn hotkey_status_for(shortcut: Seq<char>, env: HotkeyEnvironment) -> (
    bool,
    Seq<char>,
    Seq<char>,
) {
    if env.portal_active {
        (true, "GlobalShortcuts portal active for "@ + shortcut + "."@, Seq::empty())
    } else if env.portal_available {
        (
            false,
            "GlobalShortcuts portal detected. Registration pending for "@ + shortcut + "."@,
            custom_hint_text(shortcut),
        )
    } else if env.gnome_desktop {
        if env.gnome_shortcut_active {
            (true, "GNOME shortcut fallback active for "@ + shortcut + "."@, Seq::empty())
        } else {
            (
                false,
                "GlobalShortcuts portal is unavailable here. Use the GNOME shortcut fallback for "@
                    + shortcut + "."@,
                gnome_hint_text(),
            )
        }
    } else {
        (
            false,
            "No supported global shortcut backend detected. "@ + shortcut
                + " is not armed automatically."@,
            custom_hint_text(shortcut),
        )
    }
}

/// Whether and how the configured dictation shortcut is armed.
pub fn probe(settings: &AppSettings, env: HotkeyEnvironment) -> (r: HotkeyStatus)
    ensures
        (r.active, r.message@, r.setup_hint@) == hotkey_status_for(
            settings.global_shortcut_label@,
            env,
        ),
{
    let shortcut = settings.global_shortcut_label.as_str();
    if env.portal_active {
        return HotkeyStatus {
            active: true,
            message: str_concat3("GlobalShortcuts portal active for ", shortcut, "."),
            setup_hint: String::new(),
        };
    }
    if env.portal_available {
        return HotkeyStatus {
            active: false,
            message: str_concat3(
                "GlobalShortcuts portal detected. Registration pending for ",
                shortcut,
                ".",
            ),
            setup_hint: custom_shortcut_hint(shortcut),
        };
    }
    if env.gnome_desktop {
        if env.gnome_shortcut_active {
            return HotkeyStatus {
                active: true,
                message: str_concat3("GNOME shortcut fallback active for ", shortcut, "."),
                setup_hint: String::new(),
            };
        }
        return HotkeyStatus {
            active: false,
            message: str_concat3(
                "GlobalShortcuts portal is unavailable here. Use the GNOME shortcut fallback for ",
                shortcut,
                ".",
            ),
            setup_hint: gnome_shortcut_hint(),
        };
    }
    HotkeyStatus {
        active: false,
        message: str_concat3(
            "No supported global shortcut backend detected. ",
            shortcut,
            " is not armed automatically.",
        ),
        setup_hint: custom_shortcut_hint(shortcut),
    }
}

/// The object path on which the portal answers a request made with `token` by the
/// connection whose unique bus name is `unique_name`.
pub open spec fn portal_request_path_of(unique_name: Seq<char>, token: Seq<char>) -> Seq<char> {
    "/org/freedesktop/portal/desktop/request/"@ + strip_char_start(
        replace_all(unique_name, "."@, "_"@),
        ':',
    ) + "/"@ + token
}

/// The object path on which the portal answers a request made with `token`.
pub fn portal_request_path(unique_name: &str, token: &str) -> (r: String)
    ensures
        r@ == portal_request_path_of(unique_name@, token@),
{
    let u = chars_of(unique_name);
    let dot = chars_of(".");
    let underscore = chars_of("_");
    proof {
        reveal_strlit(".");
    }
    let replaced = replace_chars(&u, &dot, &underscore);
    let mut i: usize = 0;
    assert(replaced@.skip(0) =~= replaced@);
    while i < replaced.len() && replaced[i] == ':'
        invariant
            i <= replaced@.len(),
            strip_char_start(replaced@, ':') == strip_char_start(replaced@.skip(i as int), ':'),
        decreases replaced@.len() - i,
    {
        assert(replaced@.skip(i as int).drop_first() =~= replaced@.skip(i + 1));
        i = i + 1;
    }
    let trimmed = tail_chars(&replaced, i);
    let mut out = chars_of("/org/freedesktop/portal/desktop/request/");
    push_all(&mut out, &trimmed);
    out.push('/');
    let t = chars_of(token);
    push_all(&mut out, &t);
    proof {
        reveal_strlit("/");
        assert(out@ =~= portal_request_path_of(unique_name@, token@));
    }
    string_of(&out)
}


/// The identifier under which the dictation shortcut is bound.
pub const TOGGLE_SHORTCUT_ID: &'static str = "toggle-dictation";

/// The portal interface that binds global shortcuts.
pub const GLOBAL_SHORTCUTS_INTERFACE: &'static str = "org.freedesktop.portal.GlobalShortcuts";

/// The portal interface on which requests are answered.
pub const PORTAL_REQUEST_INTERFACE: &'static str = "org.freedesktop.portal.Request";

/// The desktop portal's object path.
pub const PORTAL_DESKTOP_PATH: &'static str = "/org/freedesktop/portal/desktop";

/// The view of an optional string slice.
pub open spec fn opt_str_view(o: Option<&str>) -> Option<Seq<char>> {
    match o {
        Some(s) => Some(s@),
        None => None,
    }
}

/// The handle tokens for the portal requests of process `pid`: creating the session, naming
/// the session, binding the shortcut.
pub struct PortalTokens {
    pub request: String,
    pub session: String,
    pub bind: String,
}

/// The handle tokens for the portal requests of process `pid`.
pub fn portal_tokens(pid: u32) -> (r: PortalTokens)
    ensures
        r.request@ == "saywrite_"@ + decimal(pid as nat),
        r.session@ == "saywrite_session_"@ + decimal(pid as nat),
        r.bind@ == "saywrite_bind_"@ + decimal(pid as nat),
{
    let n = decimal_string(pid as u64);
    PortalTokens {
        request: str_concat("saywrite_", n.as_str()),
        session: str_concat("saywrite_session_", n.as_str()),
        bind: str_concat("saywrite_bind_", n.as_str()),
    }
}

/// Whether a bus message with this interface and member is a shortcut activation from the
/// portal.
pub fn is_activation(interface: Option<&str>, member: Option<&str>) -> (r: bool)
    ensures
        r == (opt_str_view(interface) == Some(GLOBAL_SHORTCUTS_INTERFACE@) && opt_str_view(member)
            == Some("Activated"@)),
{
    let right_interface = match interface {
        Some(i) => str_eq(i, GLOBAL_SHORTCUTS_INTERFACE),
        None => false,
    };
    let right_member = match member {
        Some(m) => str_eq(m, "Activated"),
        None => false,
    };
    right_interface && right_member
}

/// Whether an activation in `activated_session` of `shortcut_id` is the dictation shortcut of
/// the session `session_handle`.
pub fn activation_is_ours(activated_session: &str, shortcut_id: &str, session_handle: &str) -> (r:
    bool)
    ensures
        r == (activated_session@ == session_handle@ && shortcut_id@ == TOGGLE_SHORTCUT_ID@),
{
    str_eq(activated_session, session_handle) && str_eq(shortcut_id, TOGGLE_SHORTCUT_ID)
}

/// Whether a bus message with this path, interface and member is the portal's answer to the
/// request at `request_path`.
pub fn is_portal_response(
    path: Option<&str>,
    interface: Option<&str>,
    member: Option<&str>,
    request_path: &str,
) -> (r: bool)
    ensures
        r == (opt_str_view(path) == Some(request_path@) && opt_str_view(interface) == Some(
            PORTAL_REQUEST_INTERFACE@,
        ) && opt_str_view(member) == Some("Response"@)),
{
    let right_path = match path {
        Some(p) => str_eq(p, request_path),
        None => false,
    };
    let right_interface = match interface {
        Some(i) => str_eq(i, PORTAL_REQUEST_INTERFACE),
        None => false,
    };
    let right_member = match member {
        Some(m) => str_eq(m, "Response"),
        None => false,
    };
    right_path && right_interface && right_member
}

/// What a portal answer means: a refusal unless `code` is 0; otherwise the session handle it
/// carries (`session_handle`, when it carries one as a string), or the portal's own path when
/// that is missing or empty.
pub open spec fn portal_outcome(code: u32, session_handle: Option<Seq<char>>) -> Result<
    Seq<char>,
    Seq<char>,
> {
    if code != 0 {
        Err("Portal request denied (response code "@ + decimal(code as nat) + ")"@)
    } else {
        match session_handle {
            Some(h) => if h.len() > 0 {
                Ok(h)
            } else {
                Ok(PORTAL_DESKTOP_PATH@)
            },
            None => Ok(PORTAL_DESKTOP_PATH@),
        }
    }
}

/// What the portal's answer with response code `code` and the session handle it carried, if
/// any, comes to.
pub fn portal_response_outcome(code: u32, session_handle: Option<String>) -> (r: Result<
    String,
    String,
>)
    ensures
        match (r, portal_outcome(code, opt_view(session_handle))) {
            (Ok(a), Ok(b)) => a@ == b,
            (Err(a), Err(b)) => a@ == b,
            _ => false,
        },
{
    if code != 0 {
        let n = decimal_string(code as u64);
        return Err(str_concat3("Portal request denied (response code ", n.as_str(), ")"));
    }
    match session_handle {
        Some(h) => {
            if h.as_str().unicode_len() > 0 {
                Ok(h)
            } else {
                Ok(copy_string(PORTAL_DESKTOP_PATH))
            }
        },
        None => Ok(copy_string(PORTAL_DESKTOP_PATH)),
    }
}

} // verus!
