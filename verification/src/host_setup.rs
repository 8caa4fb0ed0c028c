//! Desktop detection, the diagnostics shown in settings, and the GNOME fallback shortcut
//! decisions.
use vstd::prelude::*;

use crate::config::opt_view;
use crate::input::{gnome_binding, names_gnome, shortcut_to_gnome_binding, desktop_is_gnome};
use crate::integration_api::HostStatus;
use crate::config::{join_path, join_path_str};
use crate::insertion::string_views;
use crate::text::{
    debug_quoted, debug_text, str_eq, chars_eq, chars_of, contains, contains_chars, copy_string, eq_ignore_case, eq_ignore_case_chars,
    index_of, index_of_char, join, join_chars, lines, lower_all, lower_chars, push_all, split_lines,
    split_words, str_concat, str_concat3, string_of, strip_char, strip_char_chars, tail_chars,
    head_chars, views, words,
};

verus! {

/// Whether the desktop integration is running.
#[derive(Debug, Clone)]
pub struct HostSetupStatus {
    pub host_running: bool,
}

/// The diagnostics shown in settings.
#[derive(Debug, Clone)]
pub struct HostDiagnostics {
    pub desktop_label: String,
    pub host_files_label: String,
    pub dependency_label: String,
    pub package_hint: Option<String>,
}

/// The kinds of desktop session that need different tools.
#[derive(Clone, Copy, Debug, PartialEq, Eq, Structural)]
pub enum HostProfile {
    GnomeWayland,
    OtherWayland,
    X11,
    Other,
}

/// A command a desktop session needs, with the package that provides it.
#[derive(Clone, Copy, Debug)]
pub struct CommandRequirement {
    pub command: &'static str,
    pub package_hint: Option<&'static str>,
}

/// Whether the integration is running, given its status (`None` when it is not running).
pub fn host_setup_status(status: &Option<HostStatus>) -> (r: HostSetupStatus)
    ensures
        r.host_running == status is Some,
{
    HostSetupStatus { host_running: status.is_some() }
}

/// The profile of a session whose `XDG_CURRENT_DESKTOP` and `XDG_SESSION_TYPE` are `desktop`
/// and `session` (empty when unset).
pub open spec fn profile_of(desktop: Seq<char>, session: Seq<char>) -> HostProfile {
    if eq_ignore_case(session, "wayland"@) && names_gnome(desktop) {
        HostProfile::GnomeWayland
    } else if eq_ignore_case(session, "wayland"@) {
        HostProfile::OtherWayland
    } else if eq_ignore_case(session, "x11"@) {
        HostProfile::X11
    } else {
        HostProfile::Other
    }
}

/// The profile of the session, from `XDG_CURRENT_DESKTOP` and `XDG_SESSION_TYPE` (empty when
/// unset).
pub fn host_profile(desktop: &str, session: &str) -> (r: HostProfile)
    ensures
        r == profile_of(desktop@, session@),
{
    let s = chars_of(session);
    let wayland = chars_of("wayland");
    let x11 = chars_of("x11");
    let gnome = desktop_is_gnome(desktop);
    if eq_ignore_case_chars(&s, &wayland) && gnome {
        HostProfile::GnomeWayland
    } else if eq_ignore_case_chars(&s, &wayland) {
        HostProfile::OtherWayland
    } else if eq_ignore_case_chars(&s, &x11) {
        HostProfile::X11
    } else {
        HostProfile::Other
    }
}

/// How the session is named to the user; for an unrecognised session, its desktop and session
/// type as the environment gives them (`None` when unset).
pub open spec fn desktop_label_of(
    profile: HostProfile,
    desktop: Option<Seq<char>>,
    session: Option<Seq<char>>,
) -> Seq<char> {
    match profile {
        HostProfile::GnomeWayland => "GNOME Wayland"@,
        HostProfile::OtherWayland => "Wayland"@,
        HostProfile::X11 => "X11"@,
        HostProfile::Other => (match desktop {
            Some(d) => d,
            None => "Unknown desktop"@,
        }) + " ("@ + (match session {
            Some(s) => s,
            None => "unknown session"@,
        }) + ")"@,
    }
}

/// How the session is named to the user.
pub fn desktop_label(profile: HostProfile, desktop: Option<&str>, session: Option<&str>) -> (r:
    String)
    ensures
        r@ == desktop_label_of(
            profile,
            match desktop {
                Some(d) => Some(d@),
                None => None,
            },
            match session {
                Some(s) => Some(s@),
                None => None,
            },
        ),
{
    match profile {
        HostProfile::GnomeWayland => copy_string("GNOME Wayland"),
        HostProfile::OtherWayland => copy_string("Wayland"),
        HostProfile::X11 => copy_string("X11"),
        HostProfile::Other => {
            let d = match desktop {
                Some(d) => d,
                None => "Unknown desktop",
            };
            let s = match session {
                Some(s) => s,
                None => "unknown session",
            };
            let head = str_concat3(d, " (", s);
            str_concat(head.as_str(), ")")
        },
    }
}

/// The commands and packages a profile needs, as (command, package) pairs.
pub open spec fn requirements_of(profile: HostProfile) -> Seq<(Seq<char>, Option<Seq<char>>)> {
    match profile {
        HostProfile::GnomeWayland => seq![
            ("ibus"@, Some("ibus"@)),
            ("gdbus"@, Some("libglib2.0-bin"@)),
            ("busctl"@, Some("systemd"@)),
        ],
        HostProfile::OtherWayland => seq![("wtype"@, Some("wtype"@)), ("busctl"@, Some("systemd"@))],
        HostProfile::X11 => seq![("xdotool"@, Some("xdotool"@)), ("busctl"@, Some("systemd"@))],
        HostProfile::Other => Seq::empty(),
    }
}

pub open spec fn requirement_view(r: CommandRequirement) -> (Seq<char>, Option<Seq<char>>) {
    (
        r.command@,
        match r.package_hint {
            Some(p) => Some(p@),
            None => None,
        },
    )
}

pub open spec fn requirement_views(v: Seq<CommandRequirement>) -> Seq<(Seq<char>, Option<Seq<char>>)> {
    Seq::new(v.len(), |i: int| requirement_view(v[i]))
}

fn requirement(command: &'static str, package: &'static str) -> (r: CommandRequirement)
    ensures
        requirement_view(r) == (command@, Some(package@)),
{
    CommandRequirement { command, package_hint: Some(package) }
}

/// The commands a profile needs.
pub fn requirements_for_profile(profile: HostProfile) -> (r: Vec<CommandRequirement>)
    ensures
        requirement_views(r@) == requirements_of(profile),
        profile == HostProfile::GnomeWayland ==> requirement_views(r@) == seq![
            ("ibus"@, Some("ibus"@)),
            ("gdbus"@, Some("libglib2.0-bin"@)),
            ("busctl"@, Some("systemd"@)),
        ],
        profile == HostProfile::OtherWayland ==> requirement_views(r@) == seq![
            ("wtype"@, Some("wtype"@)),
            ("busctl"@, Some("systemd"@)),
        ],
        profile == HostProfile::X11 ==> requirement_views(r@) == seq![
            ("xdotool"@, Some("xdotool"@)),
            ("busctl"@, Some("systemd"@)),
        ],
        profile == HostProfile::Other ==> r@.len() == 0,
{
    let mut v: Vec<CommandRequirement> = Vec::new();
    match profile {
        HostProfile::GnomeWayland => {
            v.push(requirement("ibus", "ibus"));
            v.push(requirement("gdbus", "libglib2.0-bin"));
            v.push(requirement("busctl", "systemd"));
        },
        HostProfile::OtherWayland => {
            v.push(requirement("wtype", "wtype"));
            v.push(requirement("busctl", "systemd"));
        },
        HostProfile::X11 => {
            v.push(requirement("xdotool", "xdotool"));
            v.push(requirement("busctl", "systemd"));
        },
        HostProfile::Other => {},
    }
    assert(requirement_views(v@) =~= requirements_of(profile));
    v
}

/// The requirements whose command `present` marks as not found, in order.
pub open spec fn missing_of(reqs: Seq<CommandRequirement>, present: Seq<bool>) -> Seq<
    CommandRequirement,
>
    decreases reqs.len(),
{
    if reqs.len() == 0 {
        Seq::empty()
    } else {
        missing_of(reqs.drop_last(), present) + if present[reqs.len() - 1] {
            Seq::empty()
        } else {
            seq![reqs.last()]
        }
    }
}

/// The requirements whose command was not found; `present[i]` tells whether the command of
/// `requirements[i]` was found.
pub fn missing_requirements(requirements: &Vec<CommandRequirement>, present: &Vec<bool>) -> (r: Vec<
    CommandRequirement,
>)
    requires
        present@.len() == requirements@.len(),
    ensures
        r@ == missing_of(requirements@, present@),
{
    let mut out: Vec<CommandRequirement> = Vec::new();
    let mut i: usize = 0;
    assert(requirements@.take(0) =~= Seq::<CommandRequirement>::empty());
    while i < requirements.len()
        invariant
            i <= requirements@.len(),
            present@.len() == requirements@.len(),
            out@ =~= missing_of(requirements@.take(i as int), present@),
        decreases requirements@.len() - i,
    {
        proof {
            assert(requirements@.take(i + 1).drop_last() =~= requirements@.take(i as int));
            assert(requirements@.take(i + 1).last() == requirements@[i as int]);
        }
        if !present[i] {
            out.push(requirements[i]);
        }
        i = i + 1;
    }
    assert(requirements@.take(requirements@.len() as int) =~= requirements@);
    out
}

/// The missing requirements are exactly those whose command was not found: each one not found
/// is listed, and each one listed was not found, in the order given.
pub proof fn lemma_missing_are_the_absent(reqs: Seq<CommandRequirement>, present: Seq<bool>)
    requires
        present.len() == reqs.len(),
    ensures
        forall|i: int| 0 <= i < reqs.len() && !present[i] ==> missing_of(reqs, present).contains(
            #[trigger] reqs[i],
        ),
        forall|j: int|
            0 <= j < missing_of(reqs, present).len() ==> exists|i: int|
                0 <= i < reqs.len() && !present[i] && reqs[i] == #[trigger] missing_of(
                    reqs,
                    present,
                )[j],
        missing_of(reqs, present).len() <= reqs.len(),
{
    lemma_missing_flags_prefix(reqs, present);
}

/// Reading the requirements with a longer list of flags reads them as with the flags that
/// belong to them.
proof fn lemma_missing_flags_prefix(reqs: Seq<CommandRequirement>, present: Seq<bool>)
    requires
        present.len() >= reqs.len(),
    ensures
        forall|i: int| 0 <= i < reqs.len() && !present[i] ==> missing_of(reqs, present).contains(
            #[trigger] reqs[i],
        ),
        forall|j: int|
            0 <= j < missing_of(reqs, present).len() ==> exists|i: int|
                0 <= i < reqs.len() && !present[i] && reqs[i] == #[trigger] missing_of(
                    reqs,
                    present,
                )[j],
        missing_of(reqs, present).len() <= reqs.len(),
    decreases reqs.len(),
{
    if reqs.len() > 0 {
        let front = reqs.drop_last();
        let n = reqs.len() - 1;
        lemma_missing_flags_prefix(front, present);
        let before = missing_of(front, present);
        let tail = if present[n] {
            Seq::<CommandRequirement>::empty()
        } else {
            seq![reqs.last()]
        };
        let m = missing_of(reqs, present);
        assert(m == before + tail);
        assert forall|i: int| 0 <= i < reqs.len() && !present[i] implies m.contains(
            #[trigger] reqs[i],
        ) by {
            if i < n {
                assert(front[i] == reqs[i]);
                assert(before.contains(front[i]));
                let k = choose|k: int| 0 <= k < before.len() && before[k] == front[i];
                assert(m[k] == reqs[i]);
            } else {
                assert(m[before.len() as int] == reqs[i]);
            }
        }
        assert forall|j: int| 0 <= j < m.len() implies exists|i: int|
            0 <= i < reqs.len() && !present[i] && reqs[i] == #[trigger] m[j] by {
            if j < before.len() {
                assert(m[j] == before[j]);
                let i = choose|i: int| 0 <= i < front.len() && !present[i] && front[i] == #[trigger] before[j];
                assert(reqs[i] == front[i]);
            } else {
                assert(m[j] == reqs[n]);
            }
        }
    }
}

/// The names of the missing commands, joined with `, `.
pub open spec fn missing_names(missing: Seq<CommandRequirement>) -> Seq<char> {
    join(Seq::new(missing.len(), |i: int| missing[i].command@), ", "@)
}

/// The dependency line of the diagnostics: the session looks ready, or which tools it misses.
pub open spec fn dependency_label_of(profile: HostProfile, missing: Seq<CommandRequirement>) -> Seq<
    char,
> {
    if missing.len() == 0 {
        match profile {
            HostProfile::GnomeWayland => "GNOME Wayland checks look ready for Direct Typing."@,
            HostProfile::OtherWayland => "Wayland checks look ready for the current fallback path."@,
            HostProfile::X11 => "X11 checks look ready for Direct Typing."@,
            HostProfile::Other => "No desktop-specific checks are defined for this session."@,
        }
    } else {
        (match profile {
            HostProfile::GnomeWayland => "Missing GNOME Wayland tools: "@,
            HostProfile::OtherWayland => "Missing Wayland tools: "@,
            HostProfile::X11 => "Missing X11 tools: "@,
            HostProfile::Other => "Missing desktop tools: "@,
        }) + missing_names(missing) + "."@
    }
}

/// The dependency line of the diagnostics.
pub fn dependency_label(profile: HostProfile, missing: &Vec<CommandRequirement>) -> (r: String)
    ensures
        r@ == dependency_label_of(profile, missing@),
{
    if missing.len() == 0 {
        return match profile {
            HostProfile::GnomeWayland => copy_string(
                "GNOME Wayland checks look ready for Direct Typing.",
            ),
            HostProfile::OtherWayland => copy_string(
                "Wayland checks look ready for the current fallback path.",
            ),
            HostProfile::X11 => copy_string("X11 checks look ready for Direct Typing."),
            HostProfile::Other => copy_string(
                "No desktop-specific checks are defined for this session.",
            ),
        };
    }
    let mut names: Vec<Vec<char>> = Vec::new();
    let mut i: usize = 0;
    let ghost all = Seq::new(missing@.len(), |k: int| missing@[k].command@);
    while i < missing.len()
        invariant
            i <= missing@.len(),
            all == Seq::new(missing@.len(), |k: int| missing@[k].command@),
            views(names@) =~= all.take(i as int),
        decreases missing@.len() - i,
    {
        let ghost before = names@;
        names.push(chars_of(missing[i].command));
        assert(views(names@) =~= views(before).push(all[i as int]));
        i = i + 1;
    }
    assert(all.take(missing@.len() as int) =~= all);
    let sep = chars_of(", ");
    let joined = join_chars(&names, &sep);
    let prefix = match profile {
        HostProfile::GnomeWayland => "Missing GNOME Wayland tools: ",
        HostProfile::OtherWayland => "Missing Wayland tools: ",
        HostProfile::X11 => "Missing X11 tools: ",
        HostProfile::Other => "Missing desktop tools: ",
    };
    let mut out = chars_of(prefix);
    push_all(&mut out, &joined);
    out.push('.');
    proof {
        reveal_strlit(".");
        assert(out@ =~= dependency_label_of(profile, missing@));
    }
    string_of(&out)
}

// ---------------------------------------------------------------------------
// os-release and package hints
// ---------------------------------------------------------------------------

/// The entry one line of `/etc/os-release` gives: the text before the first `=` and the text
/// after it without surrounding double quotes.
pub open spec fn os_release_entry(line: Seq<char>) -> Option<(Seq<char>, Seq<char>)> {
    match index_of(line, '=') {
        Some(i) => Some((line.take(i), strip_char(line.skip(i + 1), '"'))),
        None => None,
    }
}

/// The entries of the lines `ls`, in order.
pub open spec fn os_release_entries(ls: Seq<Seq<char>>) -> Seq<(Seq<char>, Seq<char>)>
    decreases ls.len(),
{
    if ls.len() == 0 {
        Seq::empty()
    } else {
        os_release_entries(ls.drop_last()) + match os_release_entry(ls.last()) {
            Some(e) => seq![e],
            None => Seq::empty(),
        }
    }
}

pub open spec fn entry_views(v: Seq<(String, String)>) -> Seq<(Seq<char>, Seq<char>)> {
    Seq::new(v.len(), |i: int| (v[i].0@, v[i].1@))
}

/// The key and value entries of an os-release file, in file order; where a key repeats, the
/// later entry is the one that counts.
pub fn parse_os_release(text: &str) -> (r: Vec<(String, String)>)
    ensures
        entry_views(r@) == os_release_entries(lines(text@)),
{
    let s = chars_of(text);
    let ls = split_lines(&s);
    let ghost all = views(ls@);
    let mut out: Vec<(String, String)> = Vec::new();
    let mut i: usize = 0;
    assert(all.take(0) =~= Seq::<Seq<char>>::empty());
    while i < ls.len()
        invariant
            i <= ls@.len(),
            all == views(ls@),
            entry_views(out@) =~= os_release_entries(all.take(i as int)),
        decreases ls@.len() - i,
    {
        proof {
            assert(all.take(i + 1).drop_last() =~= all.take(i as int));
            assert(all.take(i + 1).last() == ls@[i as int]@);
        }
        let line = &ls[i];
        match index_of_char(line, '=') {
            Some(eq) => {
                let ll = line.len();
                assert(eq < ll);
                let key = head_chars(line, eq);
                let rest = tail_chars(line, eq + 1);
                let value = strip_char_chars(&rest, '"');
                let ghost before = out@;
                out.push((string_of(&key), string_of(&value)));
                assert(entry_views(out@) =~= entry_views(before).push((key@, value@)));
            },
            None => {},
        }
        i = i + 1;
    }
    assert(all.take(ls@.len() as int) =~= all);
    out
}

/// The value of the last entry with key `key`.
pub open spec fn os_release_value(entries: Seq<(Seq<char>, Seq<char>)>, key: Seq<char>) -> Option<
    Seq<char>,
>
    decreases entries.len(),
{
    if entries.len() == 0 {
        None
    } else if entries.last().0 == key {
        Some(entries.last().1)
    } else {
        os_release_value(entries.drop_last(), key)
    }
}

/// Whether a value names Ubuntu, Debian or Zorin among its whitespace-separated words.
pub open spec fn names_debian_family(value: Seq<char>) -> bool {
    exists|i: int| 0 <= i < words(value).len() && {
        let w = #[trigger] words(value)[i];
        w == "ubuntu"@ || w == "debian"@ || w == "zorin"@
    }
}

/// Whether the distribution is Ubuntu-like: its `ID` or `ID_LIKE` names Ubuntu, Debian or Zorin.
pub open spec fn ubuntu_like(entries: Seq<(Seq<char>, Seq<char>)>) -> bool {
    (os_release_value(entries, "ID"@) matches Some(v) && names_debian_family(v)) || (
    os_release_value(entries, "ID_LIKE"@) matches Some(v) && names_debian_family(v))
}

/// An os-release file is read as its last entry for a key: an entry appended for `key` is the
/// value found for `key`, and leaves every other key's value as it was.
pub proof fn lemma_os_release_last_entry_wins(
    entries: Seq<(Seq<char>, Seq<char>)>,
    key: Seq<char>,
    value: Seq<char>,
    other: Seq<char>,
)
    requires
        other != key,
    ensures
        os_release_value(entries.push((key, value)), key) == Some(value),
        os_release_value(entries.push((key, value)), other) == os_release_value(entries, other),
{
    assert(entries.push((key, value)).drop_last() =~= entries);
}

/// A distribution whose `ID` or `ID_LIKE` names Ubuntu, Debian or Zorin among its words gets the
/// apt install hint for the missing packages, whatever else the file says (so Linux Mint, with
/// `ID_LIKE="ubuntu debian"`, gets it as Ubuntu does).
pub proof fn lemma_debian_family_gets_apt_hint(
    entries: Seq<(Seq<char>, Seq<char>)>,
    missing: Seq<CommandRequirement>,
    key: Seq<char>,
    value: Seq<char>,
    family: Seq<char>,
)
    requires
        key == "ID"@ || key == "ID_LIKE"@,
        os_release_value(entries, key) == Some(value),
        family == "ubuntu"@ || family == "debian"@ || family == "zorin"@,
        words(value).contains(family),
        package_list(missing).len() > 0,
    ensures
        package_hint_of(entries, missing) == Some(
            "Ubuntu/Zorin packages: sudo apt install "@ + join(package_list(missing), " "@),
        ),
{
    let i = choose|i: int| 0 <= i < words(value).len() && words(value)[i] == family;
    assert(names_debian_family(value)) by {
        let w = words(value)[i];
        assert(w == "ubuntu"@ || w == "debian"@ || w == "zorin"@);
    }
}

/// The packages of the missing requirements, each once, in the order first met.
pub open spec fn package_list(missing: Seq<CommandRequirement>) -> Seq<Seq<char>>
    decreases missing.len(),
{
    if missing.len() == 0 {
        Seq::empty()
    } else {
        let before = package_list(missing.drop_last());
        match missing.last().package_hint {
            Some(p) => if before.contains(p@) {
                before
            } else {
                before.push(p@)
            },
            None => before,
        }
    }
}

/// Whether the requirement `r` is installed with the package `p`.
pub open spec fn hint_is(r: CommandRequirement, p: Seq<char>) -> bool {
    r.package_hint matches Some(h) && h@ == p
}

/// The install hint names each package once, and exactly the packages that the missing
/// commands come from.
pub proof fn lemma_package_list_distinct(missing: Seq<CommandRequirement>)
    ensures
        forall|i: int, j: int|
            0 <= i < j < package_list(missing).len() ==> package_list(missing)[i] != package_list(
                missing,
            )[j],
        forall|p: Seq<char>|
            package_list(missing).contains(p) <==> exists|k: int|
                0 <= k < missing.len() && #[trigger] hint_is(missing[k], p),
    decreases missing.len(),
{
    if missing.len() > 0 {
        let rest = missing.drop_last();
        lemma_package_list_distinct(rest);
        let before = package_list(rest);
        let list = package_list(missing);
        assert forall|p: Seq<char>| list.contains(p) <==> exists|k: int|
            0 <= k < missing.len() && #[trigger] hint_is(missing[k], p) by {
            if list.contains(p) {
                if before.contains(p) {
                    let k = choose|k: int|
                        0 <= k < rest.len() && #[trigger] hint_is(rest[k], p);
                    assert(missing[k] == rest[k]);
                } else {
                    let k = missing.len() - 1;
                    assert(list == before.push(p)) by {
                        let i = choose|i: int| 0 <= i < list.len() && list[i] == p;
                        assert(list.len() == before.len() + 1);
                    }
                    assert(hint_is(missing[k], p));
                }
            }
            if exists|k: int|
                0 <= k < missing.len() && #[trigger] hint_is(missing[k], p) {
                let k = choose|k: int|
                    0 <= k < missing.len() && #[trigger] hint_is(missing[k], p);
                if k < missing.len() - 1 {
                    assert(rest[k] == missing[k]);
                    assert(before.contains(p));
                    let i = choose|i: int| 0 <= i < before.len() && before[i] == p;
                    assert(list[i] == p);
                } else {
                    if !before.contains(p) {
                        assert(list[before.len() as int] == p);
                    } else {
                        let i = choose|i: int| 0 <= i < before.len() && before[i] == p;
                        assert(list[i] == p);
                    }
                }
            }
        }
    }
}

/// The install hint: on Ubuntu-like systems with missing packages, the `apt install` line.
pub open spec fn package_hint_of(
    entries: Seq<(Seq<char>, Seq<char>)>,
    missing: Seq<CommandRequirement>,
) -> Option<Seq<char>> {
    if !ubuntu_like(entries) || package_list(missing).len() == 0 {
        None
    } else {
        Some("Ubuntu/Zorin packages: sudo apt install "@ + join(package_list(missing), " "@))
    }
}

/// The value of the last entry with key `key`.
fn lookup_entry(entries: &Vec<(String, String)>, key: &str) -> (r: Option<String>)
    ensures
        opt_view(r) == os_release_value(entry_views(entries@), key@),
{
    let k = chars_of(key);
    let mut i: usize = entries.len();
    let ghost all = entry_views(entries@);
    assert(all.take(i as int) =~= all);
    while i > 0
        invariant
            i <= entries@.len(),
            all == entry_views(entries@),
            k@ == key@,
            os_release_value(all, key@) == os_release_value(all.take(i as int), key@),
        decreases i,
    {
        let entry_key = chars_of(entries[i - 1].0.as_str());
        proof {
            assert(all.take(i as int).last() == (entries@[i - 1].0@, entries@[i - 1].1@));
            assert(all.take(i as int).drop_last() =~= all.take(i - 1));
        }
        if chars_eq(&entry_key, &k) {
            return Some(copy_string(entries[i - 1].1.as_str()));
        }
        i = i - 1;
    }
    None
}

/// Whether a value names Ubuntu, Debian or Zorin among its words.
fn value_names_debian_family(value: &str) -> (r: bool)
    ensures
        r == names_debian_family(value@),
{
    let v = chars_of(value);
    let ws = split_words(&v);
    let ubuntu = chars_of("ubuntu");
    let debian = chars_of("debian");
    let zorin = chars_of("zorin");
    let mut i: usize = 0;
    while i < ws.len()
        invariant
            i <= ws@.len(),
            views(ws@) == words(value@),
            ubuntu@ == "ubuntu"@,
            debian@ == "debian"@,
            zorin@ == "zorin"@,
            forall|k: int|
                0 <= k < i ==> {
                    let w = #[trigger] words(value@)[k];
                    !(w == "ubuntu"@ || w == "debian"@ || w == "zorin"@)
                },
        decreases ws@.len() - i,
    {
        if chars_eq(&ws[i], &ubuntu) || chars_eq(&ws[i], &debian) || chars_eq(&ws[i], &zorin) {
            assert(words(value@)[i as int] == ws@[i as int]@);
            return true;
        }
        assert(words(value@)[i as int] == ws@[i as int]@);
        i = i + 1;
    }
    false
}

/// Whether `list` holds `p`.
fn has_package(list: &Vec<&'static str>, p: &'static str) -> (r: bool)
    ensures
        r == Seq::new(list@.len(), |i: int| list@[i]@).contains(p@),
{
    let ghost all = Seq::new(list@.len(), |i: int| list@[i]@);
    let mut i: usize = 0;
    while i < list.len()
        invariant
            i <= list@.len(),
            all == Seq::new(list@.len(), |k: int| list@[k]@),
            forall|k: int| 0 <= k < i ==> all[k] != p@,
        decreases list@.len() - i,
    {
        if crate::text::str_eq(list[i], p) {
            assert(all[i as int] == p@);
            return true;
        }
        i = i + 1;
    }
    false
}

/// The install hint for the missing requirements on the distribution described by `os_release`.
pub fn dependency_package_hint(os_release: &Vec<(String, String)>, missing: &Vec<CommandRequirement>) -> (r:
    Option<String>)
    ensures
        opt_view(r) == package_hint_of(entry_views(os_release@), missing@),
{
    let id = lookup_entry(os_release, "ID");
    let id_like = lookup_entry(os_release, "ID_LIKE");
    let like = match &id {
        Some(v) => value_names_debian_family(v.as_str()),
        None => false,
    } || match &id_like {
        Some(v) => value_names_debian_family(v.as_str()),
        None => false,
    };
    if !like {
        return None;
    }
    let mut packages: Vec<&'static str> = Vec::new();
    let mut i: usize = 0;
    assert(missing@.take(0) =~= Seq::<CommandRequirement>::empty());
    while i < missing.len()
        invariant
            i <= missing@.len(),
            Seq::new(packages@.len(), |k: int| packages@[k]@) =~= package_list(
                missing@.take(i as int),
            ),
        decreases missing@.len() - i,
    {
        proof {
            assert(missing@.take(i + 1).drop_last() =~= missing@.take(i as int));
            assert(missing@.take(i + 1).last() == missing@[i as int]);
        }
        if let Some(pkg) = missing[i].package_hint {
            if !has_package(&packages, pkg) {
                let ghost before = packages@;
                packages.push(pkg);
                assert(Seq::new(packages@.len(), |k: int| packages@[k]@) =~= Seq::new(
                    before.len(),
                    |k: int| before[k]@,
                ).push(pkg@));
            }
        }
        i = i + 1;
    }
    assert(missing@.take(missing@.len() as int) =~= missing@);
    if packages.len() == 0 {
        return None;
    }
    let mut parts: Vec<Vec<char>> = Vec::new();
    let mut j: usize = 0;
    while j < packages.len()
        invariant
            j <= packages@.len(),
            views(parts@) =~= Seq::new(packages@.len(), |k: int| packages@[k]@).take(j as int),
        decreases packages@.len() - j,
    {
        let ghost before = parts@;
        parts.push(chars_of(packages[j]));
        assert(views(parts@) =~= views(before).push(packages@[j as int]@));
        j = j + 1;
    }
    assert(Seq::new(packages@.len(), |k: int| packages@[k]@).take(packages@.len() as int) =~= Seq::new(
        packages@.len(),
        |k: int| packages@[k]@,
    ));
    let space = chars_of(" ");
    let joined = join_chars(&parts, &space);
    let mut out = chars_of("Ubuntu/Zorin packages: sudo apt install ");
    push_all(&mut out, &joined);
    Some(string_of(&out))
}

/// The diagnostics shown in settings for a session of profile `profile` whose
/// `XDG_CURRENT_DESKTOP` and `XDG_SESSION_TYPE` are `desktop` and `session` (`None` when
/// unset), with the requirements found missing and the os-release entries.
pub fn host_diagnostics(
    profile: HostProfile,
    desktop: Option<&str>,
    session: Option<&str>,
    missing: &Vec<CommandRequirement>,
    os_release: &Vec<(String, String)>,
) -> (r: HostDiagnostics)
    ensures
        r.desktop_label@ == desktop_label_of(
            profile,
            match desktop {
                Some(d) => Some(d@),
                None => None,
            },
            match session {
                Some(s) => Some(s@),
                None => None,
            },
        ),
        r.host_files_label@ == "Direct typing is built into the native app."@,
        r.dependency_label@ == dependency_label_of(profile, missing@),
        opt_view(r.package_hint) == package_hint_of(entry_views(os_release@), missing@),
{
    HostDiagnostics {
        desktop_label: desktop_label(profile, desktop, session),
        host_files_label: copy_string("Direct typing is built into the native app."),
        dependency_label: dependency_label(profile, missing),
        package_hint: dependency_package_hint(os_release, missing),
    }
}

// ---------------------------------------------------------------------------
// GNOME fallback shortcut
// ---------------------------------------------------------------------------

/// Whether GNOME keybindings can be managed: `XDG_CURRENT_DESKTOP` (`None` when unset)
/// mentions GNOME in any ASCII case.
pub open spec fn gnome_supported(desktop: Option<Seq<char>>) -> bool {
    match desktop {
        Some(d) => contains(lower_all(d), "gnome"@),
        None => false,
    }
}

/// Whether GNOME keybindings can be managed here.
pub fn gnome_shortcuts_supported(desktop: Option<&str>) -> (r: bool)
    ensures
        r == gnome_supported(
            match desktop {
                Some(d) => Some(d@),
                None => None,
            },
        ),
{
    match desktop {
        Some(d) => {
            let c = chars_of(d);
            let lower = lower_chars(&c);
            let gnome = chars_of("gnome");
            contains_chars(&lower, &gnome)
        },
        None => false,
    }
}

/// The binding to write while a new shortcut is captured: the empty binding, where GNOME
/// keybindings can be managed.
pub fn suspend_gnome_shortcut(desktop: Option<&str>) -> (r: Option<String>)
    ensures
        r is Some <==> gnome_supported(
            match desktop {
                Some(d) => Some(d@),
                None => None,
            },
        ),
        r matches Some(b) ==> b@.len() == 0,
{
    if gnome_shortcuts_supported(desktop) {
        Some(String::new())
    } else {
        None
    }
}

/// The binding to write back for `shortcut_label` after a capture, where GNOME keybindings can
/// be managed.
pub fn restore_gnome_shortcut(desktop: Option<&str>, shortcut_label: &str) -> (r: Option<String>)
    ensures
        r is Some <==> gnome_supported(
            match desktop {
                Some(d) => Some(d@),
                None => None,
            },
        ),
        r matches Some(b) ==> b@ == gnome_binding(shortcut_label@),
{
    if gnome_shortcuts_supported(desktop) {
        Some(shortcut_to_gnome_binding(shortcut_label))
    } else {
        None
    }
}

/// Whether the GNOME fallback keybinding needs to be written again: its binding is empty or not
/// the one for `label`, its command is empty, or it differs from the launcher that should be
/// used (when one was found).
pub open spec fn needs_repair(
    label: Seq<char>,
    current_binding: Seq<char>,
    current_command: Seq<char>,
    expected_command: Option<Seq<char>>,
) -> bool {
    ||| current_binding.len() == 0
    ||| current_binding != gnome_binding(label)
    ||| current_command.len() == 0
    ||| (expected_command matches Some(c) && c != current_command)
}

/// Whether the GNOME fallback keybinding needs to be written again.
pub fn shortcut_needs_repair(
    label: &str,
    current_binding: &str,
    current_command: &str,
    expected_command: Option<&str>,
) -> (r: bool)
    ensures
        r == needs_repair(
            label@,
            current_binding@,
            current_command@,
            match expected_command {
                Some(c) => Some(c@),
                None => None,
            },
        ),
{
    let binding = chars_of(current_binding);
    let command = chars_of(current_command);
    let expected_binding = shortcut_to_gnome_binding(label);
    let expected = chars_of(expected_binding.as_str());
    let command_differs = match expected_command {
        Some(c) => {
            let e = chars_of(c);
            !chars_eq(&e, &command)
        },
        None => false,
    };
    binding.len() == 0 || !chars_eq(&binding, &expected) || command.len() == 0 || command_differs
}


// ---------------------------------------------------------------------------
// The GNOME hands-free keybinding
// ---------------------------------------------------------------------------

/// The gsettings schema and path of the hands-free keybinding.
pub const HANDS_FREE_SCHEMA_KEY: &'static str = "org.gnome.settings-daemon.plugins.media-keys.custom-keybinding:/org/gnome/settings-daemon/plugins/media-keys/custom-keybindings/saywrite-hands-free/";

/// The path of the hands-free keybinding in the custom keybinding list.
pub const HANDS_FREE_PATH: &'static str = "/org/gnome/settings-daemon/plugins/media-keys/custom-keybindings/saywrite-hands-free/";

/// A keybinding that earlier versions installed, removed from the list.
pub const LEGACY_KEYBINDING_PATH: &'static str = "/org/gnome/settings-daemon/plugins/media-keys/custom-keybindings/saywrite/";

/// Another keybinding that earlier versions installed, removed from the list.
pub const LEGACY_QUICK_KEYBINDING_PATH: &'static str = "/org/gnome/settings-daemon/plugins/media-keys/custom-keybindings/saywrite-quick/";

/// The name shown for the hands-free keybinding.
pub const HANDS_FREE_NAME: &'static str = "SayWrite Hands-Free Dictation";

/// The launcher installed by the native package.
pub const PACKAGED_LAUNCHER: &'static str = "/usr/bin/saywrite-dictation.sh";

/// The Python program that puts the hands-free path (its first argument) last in GNOME's
/// custom keybinding list, dropping it and the legacy paths (the other arguments) from where
/// they stood.
pub const RECONCILE_SCRIPT: &'static str = "import ast, subprocess, sys\nraw = subprocess.check_output(['gsettings','get','org.gnome.settings-daemon.plugins.media-keys','custom-keybindings']).decode()\ntry:\n    paths = ast.literal_eval(raw.strip())\nexcept Exception:\n    paths = []\nkeep_path = sys.argv[1]\ndrop = set(sys.argv[2:])\nresult = [p for p in paths if p not in drop and p != keep_path]\nresult.append(keep_path)\nsubprocess.check_call(['gsettings','set','org.gnome.settings-daemon.plugins.media-keys','custom-keybindings', repr(result)])\n";

/// The launcher the hands-free keybinding runs: the packaged one when it is installed
/// (`packaged_installed`), otherwise the script of a repository checkout, when one was found.
pub fn hands_free_command_path(packaged_installed: bool, repo_script: Option<String>) -> (r: Option<
    String,
>)
    ensures
        packaged_installed ==> (r matches Some(c) && c@ == PACKAGED_LAUNCHER@),
        !packaged_installed ==> opt_view(r) == opt_view(repo_script),
{
    if packaged_installed {
        Some(copy_string(PACKAGED_LAUNCHER))
    } else {
        repo_script
    }
}

/// The `gsettings` arguments that set `field` of the hands-free keybinding to `value`.
pub fn gsettings_set_args(field: &str, value: &str) -> (r: Vec<String>)
    ensures
        string_views(r@) == seq!["gsettings"@, "set"@, HANDS_FREE_SCHEMA_KEY@, field@, value@],
{
    let mut a: Vec<String> = Vec::new();
    a.push(copy_string("gsettings"));
    a.push(copy_string("set"));
    a.push(copy_string(HANDS_FREE_SCHEMA_KEY));
    a.push(copy_string(field));
    a.push(copy_string(value));
    proof {
        assert(string_views(a@) =~= seq!["gsettings"@, "set"@, HANDS_FREE_SCHEMA_KEY@, field@, value@]);
    }
    a
}

/// The `gsettings` arguments that read `field` of the hands-free keybinding.
pub fn gsettings_get_args(field: &str) -> (r: Vec<String>)
    ensures
        string_views(r@) == seq!["gsettings"@, "get"@, HANDS_FREE_SCHEMA_KEY@, field@],
{
    let mut a: Vec<String> = Vec::new();
    a.push(copy_string("gsettings"));
    a.push(copy_string("get"));
    a.push(copy_string(HANDS_FREE_SCHEMA_KEY));
    a.push(copy_string(field));
    proof {
        assert(string_views(a@) =~= seq!["gsettings"@, "get"@, HANDS_FREE_SCHEMA_KEY@, field@]);
    }
    a
}

/// What installing the hands-free keybinding writes: the command that reorders GNOME's list of
/// custom keybindings, the fields to set in order, and the binding that must read back.
#[derive(Debug, Clone)]
pub struct GnomeShortcutWrite {
    pub reconcile: Vec<String>,
    pub fields: Vec<(String, String)>,
    pub expected_binding: String,
}

pub open spec fn launcher_missing_text() -> Seq<char> {
    "dictation launcher not found; install the native package or run from the repo checkout"@
}

/// What installing the hands-free keybinding for `label` writes, given the launcher to run
/// (`None` when none was found, which refuses the install).
pub fn gnome_shortcut_write(label: &str, command: Option<String>) -> (r: Result<
    GnomeShortcutWrite,
    String,
>)
    ensures
        command is None ==> (r matches Err(m) && m@ == launcher_missing_text()),
        command matches Some(c) ==> (r matches Ok(w) && {
            &&& string_views(w.reconcile@) == seq![
                "python3"@,
                "-c"@,
                RECONCILE_SCRIPT@,
                HANDS_FREE_PATH@,
                LEGACY_KEYBINDING_PATH@,
                LEGACY_QUICK_KEYBINDING_PATH@,
            ]
            &&& w.fields@.len() == 3
            &&& w.fields@[0].0@ == "name"@ && w.fields@[0].1@ == HANDS_FREE_NAME@
            &&& w.fields@[1].0@ == "command"@ && w.fields@[1].1@ == c@
            &&& w.fields@[2].0@ == "binding"@ && w.fields@[2].1@ == gnome_binding(label@)
            &&& w.expected_binding@ == gnome_binding(label@)
        }),
{
    let command = match command {
        None => {
            return Err(
                copy_string(
                    "dictation launcher not found; install the native package or run from the repo checkout",
                ),
            );
        },
        Some(c) => c,
    };
    let mut reconcile: Vec<String> = Vec::new();
    reconcile.push(copy_string("python3"));
    reconcile.push(copy_string("-c"));
    reconcile.push(copy_string(RECONCILE_SCRIPT));
    reconcile.push(copy_string(HANDS_FREE_PATH));
    reconcile.push(copy_string(LEGACY_KEYBINDING_PATH));
    reconcile.push(copy_string(LEGACY_QUICK_KEYBINDING_PATH));
    let binding = shortcut_to_gnome_binding(label);
    let mut fields: Vec<(String, String)> = Vec::new();
    fields.push((copy_string("name"), copy_string(HANDS_FREE_NAME)));
    fields.push((copy_string("command"), command));
    fields.push((copy_string("binding"), copy_string(binding.as_str())));
    proof {
        assert(string_views(reconcile@) =~= seq![
            "python3"@,
            "-c"@,
            RECONCILE_SCRIPT@,
            HANDS_FREE_PATH@,
            LEGACY_KEYBINDING_PATH@,
            LEGACY_QUICK_KEYBINDING_PATH@,
        ]);
    }
    Ok(GnomeShortcutWrite { reconcile, fields, expected_binding: binding })
}

/// The error for a keybinding that read back as `actual` (already quoted and escaped) where
/// `expected` (the same) was written.
pub fn binding_mismatch_message(actual: &str, expected: &str) -> (r: String)
    ensures
        r@ == "GNOME accepted the keybinding write but binding is "@ + actual@ + ", expected "@
            + expected@,
{
    let head = str_concat3("GNOME accepted the keybinding write but binding is ", actual, ", expected ");
    str_concat(head.as_str(), expected)
}

/// Whether the binding read back after the install (`actual`) is the one written; the error
/// quotes both.
pub fn check_binding_written(actual: &str, expected: &str) -> (r: Result<(), String>)
    ensures
        r is Ok <==> actual@ == expected@,
        r matches Err(m) ==> m@ == "GNOME accepted the keybinding write but binding is "@
            + debug_text(actual@) + ", expected "@ + debug_text(expected@),
{
    if str_eq(actual, expected) {
        return Ok(());
    }
    let a = debug_quoted(actual);
    let e = debug_quoted(expected);
    Err(binding_mismatch_message(a.as_str(), e.as_str()))
}

// ---------------------------------------------------------------------------
// The legacy host companion
// ---------------------------------------------------------------------------

/// The files the separate host companion of earlier versions installed, under the user's
/// configuration and data directories (`XDG_CONFIG_HOME` and `XDG_DATA_HOME`, or their
/// defaults under `home`) and `home`, each where it can be placed.
pub open spec fn legacy_host_paths_for(
    home: Option<Seq<char>>,
    config_home: Option<Seq<char>>,
    data_home: Option<Seq<char>>,
) -> Seq<Seq<char>> {
    let config = match config_home {
        Some(c) => Some(c),
        None => match home {
            Some(h) => Some(join_path(h, ".config"@)),
            None => None,
        },
    };
    let data = match data_home {
        Some(d) => Some(d),
        None => match home {
            Some(h) => Some(join_path(h, ".local/share"@)),
            None => None,
        },
    };
    (match config {
        Some(c) => seq![join_path(c, "systemd/user/saywrite-host.service"@)],
        None => Seq::empty(),
    }) + (match data {
        Some(d) => seq![join_path(d, "dbus-1/services/io.github.saywrite.Host.service"@)],
        None => Seq::empty(),
    }) + (match home {
        Some(h) => seq![join_path(h, ".local/bin/saywrite-host"@)],
        None => Seq::empty(),
    })
}

/// The files the host companion of earlier versions installed.
pub fn legacy_host_paths(
    home: Option<String>,
    config_home: Option<String>,
    data_home: Option<String>,
) -> (r: Vec<String>)
    ensures
        string_views(r@) == legacy_host_paths_for(
            opt_view(home),
            opt_view(config_home),
            opt_view(data_home),
        ),
{
    let config: Option<String> = match config_home {
        Some(c) => Some(c),
        None => match &home {
            Some(h) => Some(join_path_str(h.as_str(), ".config")),
            None => None,
        },
    };
    let data: Option<String> = match data_home {
        Some(d) => Some(d),
        None => match &home {
            Some(h) => Some(join_path_str(h.as_str(), ".local/share")),
            None => None,
        },
    };
    let mut paths: Vec<String> = Vec::new();
    match &config {
        Some(c) => {
            paths.push(join_path_str(c.as_str(), "systemd/user/saywrite-host.service"));
        },
        None => {},
    }
    match &data {
        Some(d) => {
            paths.push(join_path_str(d.as_str(), "dbus-1/services/io.github.saywrite.Host.service"));
        },
        None => {},
    }
    match &home {
        Some(h) => {
            paths.push(join_path_str(h.as_str(), ".local/bin/saywrite-host"));
        },
        None => {},
    }
    proof {
        assert(string_views(paths@) =~= legacy_host_paths_for(
            opt_view(home),
            opt_view(config_home),
            opt_view(data_home),
        ));
    }
    paths
}

} // verus!
