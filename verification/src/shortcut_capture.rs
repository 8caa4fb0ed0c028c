//! Capturing a new dictation shortcut from a key press: which presses make a usable shortcut,
//! how the shortcut is written, and what the user is told otherwise. Keys are X keysym values,
//! as GDK reports them.
use vstd::prelude::*;

use crate::input::{binding_parts, gnome_binding};
use crate::text::{
    lower_all, occurs_at, split_from, split_on, trim, trim_end, trim_start, is_ws,
    chars_of, copy_string, is_ascii_digit, is_ascii_lower, is_ascii_upper, join, join_chars,
    push_all, replace_all, replace_chars, starts_with, str_concat, string_of,
};

verus! {

pub const KEY_SPACE: u32 = 0x20;

pub const KEY_C: u32 = 0x63;

pub const KEY_RETURN: u32 = 0xff0d;

pub const KEY_ESCAPE: u32 = 0xff1b;

pub const KEY_KP_ENTER: u32 = 0xff8d;

pub const KEY_SHIFT_L: u32 = 0xffe1;

pub const KEY_SHIFT_R: u32 = 0xffe2;

pub const KEY_CONTROL_L: u32 = 0xffe3;

pub const KEY_CONTROL_R: u32 = 0xffe4;

pub const KEY_META_L: u32 = 0xffe7;

pub const KEY_META_R: u32 = 0xffe8;

pub const KEY_ALT_L: u32 = 0xffe9;

pub const KEY_ALT_R: u32 = 0xffea;

pub const KEY_SUPER_L: u32 = 0xffeb;

pub const KEY_SUPER_R: u32 = 0xffec;

/// The modifiers that count for a shortcut, as held during a key press.
#[derive(Debug, Clone, Copy, PartialEq, Eq, Structural)]
pub struct ShortcutModifiers {
    pub super_key: bool,
    pub ctrl: bool,
    pub alt: bool,
    pub shift: bool,
}

impl ShortcutModifiers {
    /// No modifier is held.
    pub open spec fn none_held(self) -> bool {
        !self.super_key && !self.ctrl && !self.alt && !self.shift
    }
}

/// Whether `keyval` is a modifier key on its own: Shift, Control, Alt, Meta or Super.
pub open spec fn modifier_keyval(keyval: u32) -> bool {
    ||| keyval == KEY_SHIFT_L
    ||| keyval == KEY_SHIFT_R
    ||| keyval == KEY_CONTROL_L
    ||| keyval == KEY_CONTROL_R
    ||| keyval == KEY_ALT_L
    ||| keyval == KEY_ALT_R
    ||| keyval == KEY_META_L
    ||| keyval == KEY_META_R
    ||| keyval == KEY_SUPER_L
    ||| keyval == KEY_SUPER_R
}

/// Whether `keyval` is a modifier key on its own.
pub fn is_modifier_key(keyval: u32) -> (r: bool)
    ensures
        r == modifier_keyval(keyval),
{
    keyval == KEY_SHIFT_L || keyval == KEY_SHIFT_R || keyval == KEY_CONTROL_L || keyval
        == KEY_CONTROL_R || keyval == KEY_ALT_L || keyval == KEY_ALT_R || keyval == KEY_META_L
        || keyval == KEY_META_R || keyval == KEY_SUPER_L || keyval == KEY_SUPER_R
}

/// Whether `c` is an ASCII letter or digit.
pub open spec fn ascii_alnum(c: char) -> bool {
    is_ascii_digit(c) || is_ascii_upper(c) || is_ascii_lower(c)
}

/// The ASCII upper-case form of `c`.
pub open spec fn ascii_upper(c: char) -> char {
    if is_ascii_lower(c) {
        ((c as u32) - 32) as char
    } else {
        c
    }
}

/// How a key is written in a shortcut: `Space` for the space bar; an ASCII letter or digit the
/// key types (`unicode`), in upper case; otherwise the key's name (`name`) without
/// underscores, when it has one.
pub open spec fn key_label_of(keyval: u32, unicode: Option<char>, name: Option<Seq<char>>) -> Option<
    Seq<char>,
> {
    if keyval == KEY_SPACE {
        Some("Space"@)
    } else if unicode matches Some(c) && ascii_alnum(c) {
        Some(seq![ascii_upper(unicode->0)])
    } else {
        match name {
            Some(n) => Some(replace_all(n, "_"@, ""@)),
            None => None,
        }
    }
}

/// How a key is written in a shortcut.
pub fn key_label(keyval: u32, unicode: Option<char>, name: Option<String>) -> (r: Option<String>)
    ensures
        crate::config::opt_view(r) == key_label_of(keyval, unicode, crate::config::opt_view(name)),
{
    if keyval == KEY_SPACE {
        return Some(copy_string("Space"));
    }
    match unicode {
        Some(c) => {
            let code: u32 = c as u32;
            let alnum = (48 <= code && code <= 57) || (65 <= code && code <= 90) || (97 <= code
                && code <= 122);
            if alnum {
                let up: char = if 97 <= code && code <= 122 {
                    let raised: u8 = (code - 32) as u8;
                    raised as char
                } else {
                    c
                };
                let mut v: Vec<char> = Vec::new();
                v.push(up);
                proof {
                    assert(v@ =~= seq![ascii_upper(c)]);
                }
                return Some(string_of(&v));
            }
        },
        None => {},
    }
    match name {
        Some(n) => {
            let chars = chars_of(n.as_str());
            let underscore = chars_of("_");
            let nothing: Vec<char> = Vec::new();
            proof {
                reveal_strlit("_");
                reveal_strlit("");
                assert(nothing@ =~= ""@);
            }
            let replaced = replace_chars(&chars, &underscore, &nothing);
            Some(string_of(&replaced))
        },
        None => None,
    }
}

/// Whether a key label names a function key: `F` followed by digits only.
pub open spec fn function_key_label(label: Seq<char>) -> bool {
    label.len() > 0 && label[0] == 'F' && forall|k: int|
        1 <= k < label.len() ==> is_ascii_digit(#[trigger] label[k])
}

/// The modifier names held in `mods`, in the order they are written.
pub open spec fn modifier_names(mods: ShortcutModifiers) -> Seq<Seq<char>> {
    (if mods.super_key {
        seq!["Super"@]
    } else {
        Seq::empty()
    }) + (if mods.ctrl {
        seq!["Ctrl"@]
    } else {
        Seq::empty()
    }) + (if mods.alt {
        seq!["Alt"@]
    } else {
        Seq::empty()
    }) + (if mods.shift {
        seq!["Shift"@]
    } else {
        Seq::empty()
    })
}

/// The shortcut a key press makes, or why it makes none: a modifier alone is refused, a key
/// without a label is refused, and a key other than a function key needs a modifier. The
/// shortcut is the held modifiers and the key's label, joined by `+`.
pub open spec fn captured_shortcut(
    keyval: u32,
    unicode: Option<char>,
    name: Option<Seq<char>>,
    mods: ShortcutModifiers,
) -> Result<Seq<char>, Seq<char>> {
    if modifier_keyval(keyval) {
        Err("Press a real key together with your modifiers."@)
    } else {
        match key_label_of(keyval, unicode, name) {
            None => Err("That key cannot be used as a shortcut."@),
            Some(label) => if mods.none_held() && !function_key_label(label) {
                Err("Use at least one modifier like Super, Ctrl, Alt, or Shift."@)
            } else {
                Ok(join(modifier_names(mods).push(label), "+"@))
            },
        }
    }
}

fn is_function_key_label(label: &Vec<char>) -> (r: bool)
    ensures
        r == function_key_label(label@),
{
    if label.len() == 0 || label[0] != 'F' {
        return false;
    }
    let mut i: usize = 1;
    while i < label.len()
        invariant
            1 <= i <= label@.len(),
            forall|k: int| 1 <= k < i ==> is_ascii_digit(#[trigger] label@[k]),
        decreases label@.len() - i,
    {
        let code: u32 = label[i] as u32;
        if !(48 <= code && code <= 57) {
            return false;
        }
        i = i + 1;
    }
    true
}

/// The shortcut a key press makes, or what to tell the user.
pub fn capture_shortcut(
    keyval: u32,
    unicode: Option<char>,
    name: Option<String>,
    mods: ShortcutModifiers,
) -> (r: Result<String, &'static str>)
    ensures
        match (r, captured_shortcut(keyval, unicode, crate::config::opt_view(name), mods)) {
            (Ok(a), Ok(b)) => a@ == b,
            (Err(a), Err(b)) => a@ == b,
            _ => false,
        },
{
    if is_modifier_key(keyval) {
        return Err("Press a real key together with your modifiers.");
    }
    let label = match key_label(keyval, unicode, name) {
        None => {
            return Err("That key cannot be used as a shortcut.");
        },
        Some(l) => l,
    };
    let label_chars = chars_of(label.as_str());
    let function_key = is_function_key_label(&label_chars);
    if !mods.super_key && !mods.ctrl && !mods.alt && !mods.shift && !function_key {
        return Err("Use at least one modifier like Super, Ctrl, Alt, or Shift.");
    }
    let mut parts: Vec<Vec<char>> = Vec::new();
    if mods.super_key {
        parts.push(chars_of("Super"));
    }
    if mods.ctrl {
        parts.push(chars_of("Ctrl"));
    }
    if mods.alt {
        parts.push(chars_of("Alt"));
    }
    if mods.shift {
        parts.push(chars_of("Shift"));
    }
    parts.push(label_chars);
    proof {
        assert(crate::text::views(parts@) =~= modifier_names(mods).push(label@));
    }
    let plus = chars_of("+");
    let joined = join_chars(&parts, &plus);
    Ok(string_of(&joined))
}

/// Whether a key press closes the capture dialog: Escape with no modifier held.
pub fn escape_closes(keyval: u32, mods: ShortcutModifiers) -> (r: bool)
    ensures
        r == (keyval == KEY_ESCAPE && mods.none_held()),
{
    keyval == KEY_ESCAPE && !mods.super_key && !mods.ctrl && !mods.alt && !mods.shift
}


// ---------------------------------------------------------------------------
// The captured shortcut and its GNOME binding
// ---------------------------------------------------------------------------

/// Whether `s` holds no `+`.
pub open spec fn plus_free(s: Seq<char>) -> bool {
    forall|k: int| 0 <= k < s.len() ==> s[k] != '+'
}

proof fn lemma_split_plus_free(b: Seq<char>, i: int, cur: Seq<char>)
    requires
        forall|k: int| i <= k < b.len() ==> b[k] != '+',
        0 <= i <= b.len(),
    ensures
        split_from(b, "+"@, i, cur) == seq![cur + b.skip(i)],
    decreases b.len() - i,
{
    reveal_strlit("+");
    if i < b.len() {
        assert(!occurs_at(b, "+"@, i, false)) by {
            assert(b[i + 0] != "+"@[0]);
        }
        lemma_split_plus_free(b, i + 1, cur.push(b[i]));
        assert(cur.push(b[i]) + b.skip(i + 1) =~= cur + b.skip(i));
    } else {
        assert(cur + b.skip(i) =~= cur);
    }
}

proof fn lemma_split_append(s: Seq<char>, b: Seq<char>, i: int, cur: Seq<char>)
    requires
        plus_free(b),
        0 <= i <= s.len(),
    ensures
        split_from(s + seq!['+'] + b, "+"@, i, cur) == split_from(s, "+"@, i, cur) + seq![b],
    decreases s.len() - i,
{
    reveal_strlit("+");
    let full = s + seq!['+'] + b;
    if i < s.len() {
        assert(full[i] == s[i]);
        assert(occurs_at(full, "+"@, i, false) == occurs_at(s, "+"@, i, false)) by {
            assert(full[i + 0] == s[i + 0]);
        }
        if occurs_at(s, "+"@, i, false) {
            lemma_split_append(s, b, i + 1, Seq::empty());
            assert(split_from(full, "+"@, i, cur) == seq![cur] + split_from(full, "+"@, i + 1, Seq::empty()));
            assert(split_from(s, "+"@, i, cur) == seq![cur] + split_from(s, "+"@, i + 1, Seq::empty()));
            assert(seq![cur] + (split_from(s, "+"@, i + 1, Seq::empty()) + seq![b]) =~= (seq![cur]
                + split_from(s, "+"@, i + 1, Seq::empty())) + seq![b]);
        } else {
            lemma_split_append(s, b, i + 1, cur.push(s[i]));
        }
    } else {
        assert(occurs_at(full, "+"@, i, false)) by {
            assert(full[i + 0] == '+');
        }
        lemma_split_plus_free(full, i + 1, Seq::empty());
        assert(Seq::<char>::empty() + full.skip(i + 1) =~= b);
        assert(split_from(s, "+"@, i, cur) == seq![cur]);
        assert(seq![cur] + seq![b] =~= seq![cur, b]);
    }
}

/// Splitting the `+`-joined parts at `+` gives the parts back, when none of them holds a `+`.
proof fn lemma_split_join_plus(parts: Seq<Seq<char>>)
    requires
        parts.len() >= 1,
        forall|k: int| 0 <= k < parts.len() ==> plus_free(#[trigger] parts[k]),
    ensures
        split_on(join(parts, "+"@), "+"@) == parts,
    decreases parts.len(),
{
    reveal_strlit("+");
    if parts.len() == 1 {
        lemma_split_plus_free(parts[0], 0, Seq::empty());
        assert(Seq::<char>::empty() + parts[0].skip(0) =~= parts[0]);
        assert(seq![parts[0]] =~= parts);
    } else {
        let front = parts.drop_last();
        assert(forall|k: int| 0 <= k < front.len() ==> front[k] == parts[k]);
        lemma_split_join_plus(front);
        let j = join(front, "+"@);
        assert(join(parts, "+"@) == j + "+"@ + parts.last());
        assert("+"@ =~= seq!['+']);
        lemma_split_append(j, parts.last(), 0, Seq::empty());
        assert(front + seq![parts.last()] =~= parts);
    }
}

/// The GNOME modifier tags for the held modifiers, in the order they are written.
pub open spec fn modifier_tags(mods: ShortcutModifiers) -> Seq<char> {
    (if mods.super_key {
        "<Super>"@
    } else {
        Seq::empty()
    }) + (if mods.ctrl {
        "<Primary>"@
    } else {
        Seq::empty()
    }) + (if mods.alt {
        "<Alt>"@
    } else {
        Seq::empty()
    }) + (if mods.shift {
        "<Shift>"@
    } else {
        Seq::empty()
    })
}

/// Whether a key label reads, once lower-cased, as one of the modifier words of a shortcut.
pub open spec fn reads_as_modifier(label: Seq<char>) -> bool {
    let w = lower_all(label);
    w == "super"@ || w == "ctrl"@ || w == "control"@ || w == "alt"@ || w == "shift"@
}

proof fn lemma_word_reads(word: Seq<char>, lower: Seq<char>)
    requires
        word.len() > 0,
        !is_ws(word[0]),
        !is_ws(word.last()),
        lower_all(word) == lower,
    ensures
        lower_all(trim(word)) == lower,
{
    assert(trim_start(word) == word);
    assert(trim_end(word) == word);
}

/// The modifier words give their tags and leave the key unset.
proof fn lemma_modifier_parts(mods: ShortcutModifiers)
    ensures
        binding_parts(modifier_names(mods)) == (modifier_tags(mods), Seq::<char>::empty()),
{
    reveal_strlit("Super");
    reveal_strlit("Ctrl");
    reveal_strlit("Alt");
    reveal_strlit("Shift");
    reveal_strlit("super");
    reveal_strlit("ctrl");
    reveal_strlit("control");
    reveal_strlit("alt");
    reveal_strlit("shift");
    assert(lower_all("Super"@) =~= "super"@);
    assert(lower_all("Ctrl"@) =~= "ctrl"@);
    assert(lower_all("Alt"@) =~= "alt"@);
    assert(lower_all("Shift"@) =~= "shift"@);
    lemma_word_reads("Super"@, "super"@);
    lemma_word_reads("Ctrl"@, "ctrl"@);
    lemma_word_reads("Alt"@, "alt"@);
    lemma_word_reads("Shift"@, "shift"@);
    let e: Seq<Seq<char>> = Seq::empty();
    let n1 = e + (if mods.super_key {
        seq!["Super"@]
    } else {
        Seq::empty()
    });
    let n2 = n1 + (if mods.ctrl {
        seq!["Ctrl"@]
    } else {
        Seq::empty()
    });
    let n3 = n2 + (if mods.alt {
        seq!["Alt"@]
    } else {
        Seq::empty()
    });
    let n4 = n3 + (if mods.shift {
        seq!["Shift"@]
    } else {
        Seq::empty()
    });
    assert(n4 =~= modifier_names(mods));
    let t1: Seq<char> = if mods.super_key {
        "<Super>"@
    } else {
        Seq::empty()
    };
    let t2: Seq<char> = if mods.ctrl {
        "<Primary>"@
    } else {
        Seq::empty()
    };
    let t3: Seq<char> = if mods.alt {
        "<Alt>"@
    } else {
        Seq::empty()
    };
    let t4: Seq<char> = if mods.shift {
        "<Shift>"@
    } else {
        Seq::empty()
    };
    assert(binding_parts(e) == (Seq::<char>::empty(), Seq::<char>::empty()));
    if mods.super_key {
        assert(n1 =~= e.push("Super"@));
        assert(n1.drop_last() =~= e);
    } else {
        assert(n1 =~= e);
    }
    assert(binding_parts(n1) == (Seq::<char>::empty() + t1, Seq::<char>::empty()));
    if mods.ctrl {
        assert(n2 =~= n1.push("Ctrl"@));
        assert(n2.drop_last() =~= n1);
    } else {
        assert(n2 =~= n1);
    }
    assert(binding_parts(n2) == (Seq::<char>::empty() + t1 + t2, Seq::<char>::empty()));
    if mods.alt {
        assert(n3 =~= n2.push("Alt"@));
        assert(n3.drop_last() =~= n2);
    } else {
        assert(n3 =~= n2);
    }
    assert(binding_parts(n3) == (Seq::<char>::empty() + t1 + t2 + t3, Seq::<char>::empty()));
    if mods.shift {
        assert("shift"@[1] != "super"@[1]);
        assert(n4 =~= n3.push("Shift"@));
        assert(n4.drop_last() =~= n3);
    } else {
        assert(n4 =~= n3);
    }
    assert(binding_parts(n4) == (Seq::<char>::empty() + t1 + t2 + t3 + t4, Seq::<char>::empty()));
    assert(Seq::<char>::empty() + t1 + t2 + t3 + t4 =~= modifier_tags(mods));
}

/// The shortcut the capture dialog writes arms the same keys in GNOME: its binding is the held
/// modifiers' tags followed by the key's label in lower case. This holds for every label that
/// the binding can read back as a key: one without `+`, without surrounding whitespace, not
/// empty, and not reading as a modifier word.
pub proof fn lemma_captured_shortcut_binding(
    keyval: u32,
    unicode: Option<char>,
    name: Option<Seq<char>>,
    mods: ShortcutModifiers,
    shortcut: Seq<char>,
)
    requires
        captured_shortcut(keyval, unicode, name, mods) == Ok::<Seq<char>, Seq<char>>(shortcut),
        key_label_of(keyval, unicode, name) matches Some(label) && {
            &&& label.len() > 0
            &&& plus_free(label)
            &&& !is_ws(label[0]) && !is_ws(label.last())
            &&& !reads_as_modifier(label)
        },
    ensures
        gnome_binding(shortcut) == modifier_tags(mods) + lower_all(key_label_of(keyval, unicode, name)->0),
{
    reveal_strlit("Super");
    reveal_strlit("Ctrl");
    reveal_strlit("Alt");
    reveal_strlit("Shift");
    reveal_strlit("+");
    let label = key_label_of(keyval, unicode, name)->0;
    let names = modifier_names(mods);
    let parts = names.push(label);
    assert(shortcut == join(parts, "+"@));
    assert forall|k: int| 0 <= k < parts.len() implies plus_free(#[trigger] parts[k]) by {
        if k < names.len() {
            assert(parts[k] == names[k]);
            assert(names[k] == "Super"@ || names[k] == "Ctrl"@ || names[k] == "Alt"@ || names[k]
                == "Shift"@);
        }
    }
    lemma_split_join_plus(parts);
    lemma_modifier_parts(mods);
    assert(parts.drop_last() =~= names);
    assert(trim_start(label) == label);
    assert(trim_end(label) == label);
    assert(lower_all(label).len() > 0);
}


/// A name without `_` is its own label: removing underscores changes nothing.
proof fn lemma_no_underscore_kept(n: Seq<char>, i: int)
    requires
        0 <= i <= n.len(),
        forall|k: int| 0 <= k < n.len() ==> n[k] != '_',
    ensures
        crate::text::replace_from(n, "_"@, ""@, i) == n.skip(i),
    decreases n.len() - i,
{
    reveal_strlit("_");
    reveal_strlit("");
    if i < n.len() {
        lemma_no_underscore_kept(n, i + 1);
        assert(n[i + 0] != "_"@[0]);
        assert(!occurs_at(n, "_"@, i, false));
        assert(seq![n[i]] + n.skip(i + 1) =~= n.skip(i));
    } else {
        assert(n.skip(i) =~= Seq::<char>::empty());
    }
}

/// A function key needs no modifier: a key named `F` followed by one or more digits, pressed
/// alone, is captured as exactly that name (`F1`, `F10`, `F12`, ...), whatever key code it
/// has besides the space bar and the modifier keys.
pub proof fn lemma_function_key_alone_is_a_shortcut(keyval: u32, digits: Seq<char>)
    requires
        !modifier_keyval(keyval),
        keyval != KEY_SPACE,
        digits.len() > 0,
        forall|k: int| 0 <= k < digits.len() ==> is_ascii_digit(#[trigger] digits[k]),
    ensures
        captured_shortcut(
            keyval,
            None,
            Some(seq!['F'] + digits),
            ShortcutModifiers { super_key: false, ctrl: false, alt: false, shift: false },
        ) == Ok::<Seq<char>, Seq<char>>(seq!['F'] + digits),
{
    let name = seq!['F'] + digits;
    assert forall|k: int| 0 <= k < name.len() implies name[k] != '_' by {
        if k > 0 {
            assert(name[k] == digits[k - 1]);
            assert(is_ascii_digit(digits[k - 1]));
        }
    }
    lemma_no_underscore_kept(name, 0);
    assert(name.skip(0) =~= name);
    assert forall|k: int| 1 <= k < name.len() implies is_ascii_digit(#[trigger] name[k]) by {
        assert(name[k] == digits[k - 1]);
    }
    assert(function_key_label(name));
    let mods = ShortcutModifiers { super_key: false, ctrl: false, alt: false, shift: false };
    assert(modifier_names(mods) =~= Seq::<Seq<char>>::empty());
    assert(modifier_names(mods).push(name) =~= seq![name]);
}


/// Each part followed by `sep`, all run together.
spec fn each_followed_by(xs: Seq<Seq<char>>, sep: Seq<char>) -> Seq<char>
    decreases xs.len(),
{
    if xs.len() == 0 {
        Seq::empty()
    } else {
        each_followed_by(xs.drop_last(), sep) + xs.last() + sep
    }
}

proof fn lemma_each_followed_by_concat(a: Seq<Seq<char>>, b: Seq<Seq<char>>, sep: Seq<char>)
    ensures
        each_followed_by(a + b, sep) == each_followed_by(a, sep) + each_followed_by(b, sep),
    decreases b.len(),
{
    if b.len() == 0 {
        assert(a + b =~= a);
        assert(each_followed_by(a, sep) + each_followed_by(b, sep) =~= each_followed_by(a, sep));
    } else {
        lemma_each_followed_by_concat(a, b.drop_last(), sep);
        assert((a + b).drop_last() =~= a + b.drop_last());
        assert((a + b).last() == b.last());
        assert(each_followed_by(a, sep) + each_followed_by(b.drop_last(), sep) + b.last() + sep
            =~= each_followed_by(a, sep) + (each_followed_by(b.drop_last(), sep) + b.last() + sep));
    }
}

proof fn lemma_join_then_sep(xs: Seq<Seq<char>>, sep: Seq<char>)
    requires
        xs.len() > 0,
    ensures
        join(xs, sep) + sep == each_followed_by(xs, sep),
    decreases xs.len(),
{
    if xs.len() == 1 {
        assert(xs.drop_last() =~= Seq::<Seq<char>>::empty());
        assert(each_followed_by(xs.drop_last(), sep) == Seq::<char>::empty());
        assert(xs.last() == xs[0]);
        assert(join(xs, sep) == xs[0]);
        assert(each_followed_by(xs, sep) =~= Seq::<char>::empty() + xs[0] + sep);
    } else {
        lemma_join_then_sep(xs.drop_last(), sep);
    }
}

proof fn lemma_join_push(xs: Seq<Seq<char>>, l: Seq<char>, sep: Seq<char>)
    ensures
        join(xs.push(l), sep) == each_followed_by(xs, sep) + l,
{
    if xs.len() == 0 {
        assert(xs.push(l) =~= seq![l]);
        assert(Seq::<char>::empty() + l =~= l);
    } else {
        assert(xs.push(l).drop_last() =~= xs);
        lemma_join_then_sep(xs, sep);
    }
}

/// A letter key with modifiers is written as the held modifiers in the order Super, Ctrl, Alt,
/// Shift, each followed by `+`, and then the letter in upper case (`Super+Alt+D`).
pub proof fn lemma_letter_shortcut(keyval: u32, c: char, name: Option<Seq<char>>, mods: ShortcutModifiers)
    requires
        !modifier_keyval(keyval),
        keyval != KEY_SPACE,
        is_ascii_lower(c) || is_ascii_upper(c),
        !mods.none_held(),
    ensures
        captured_shortcut(keyval, Some(c), name, mods) == Ok::<Seq<char>, Seq<char>>(
            (if mods.super_key { "Super+"@ } else { Seq::empty() }) + (if mods.ctrl {
                "Ctrl+"@
            } else {
                Seq::empty()
            }) + (if mods.alt { "Alt+"@ } else { Seq::empty() }) + (if mods.shift {
                "Shift+"@
            } else {
                Seq::empty()
            }) + seq![if is_ascii_lower(c) { ((c as u32) - 32) as char } else { c }],
        ),
{
    reveal_strlit("Super+");
    reveal_strlit("Ctrl+");
    reveal_strlit("Alt+");
    reveal_strlit("Shift+");
    reveal_strlit("Super");
    reveal_strlit("Ctrl");
    reveal_strlit("Alt");
    reveal_strlit("Shift");
    reveal_strlit("+");
    let sep: Seq<char> = "+"@;
    let opt = |b: bool, w: Seq<char>| if b { seq![w] } else { Seq::<Seq<char>>::empty() };
    let n1 = opt(mods.super_key, "Super"@);
    let n2 = opt(mods.ctrl, "Ctrl"@);
    let n3 = opt(mods.alt, "Alt"@);
    let n4 = opt(mods.shift, "Shift"@);
    assert(modifier_names(mods) == n1 + n2 + n3 + n4);
    lemma_each_followed_by_concat(n1 + n2 + n3, n4, sep);
    lemma_each_followed_by_concat(n1 + n2, n3, sep);
    lemma_each_followed_by_concat(n1, n2, sep);
    assert forall|b: bool, w: Seq<char>| #[trigger] each_followed_by(opt(b, w), sep) == (if b {
        w + sep
    } else {
        Seq::<char>::empty()
    }) by {
        let o = opt(b, w);
        if b {
            assert(o =~= seq![w]);
            assert(o.drop_last() =~= Seq::<Seq<char>>::empty());
            assert(each_followed_by(o.drop_last(), sep) == Seq::<char>::empty());
            assert(o.last() == w);
            assert(Seq::<char>::empty() + w + sep =~= w + sep);
        } else {
            assert(o.len() == 0);
        }
    }
    assert("Super"@ + sep =~= "Super+"@);
    assert("Ctrl"@ + sep =~= "Ctrl+"@);
    assert("Alt"@ + sep =~= "Alt+"@);
    assert("Shift"@ + sep =~= "Shift+"@);
    let label = seq![ascii_upper(c)];
    assert(key_label_of(keyval, Some(c), name) == Some(label));
    lemma_join_push(modifier_names(mods), label, sep);
}

} // verus!
