//! Deterministic transcript cleanup: spoken punctuation becomes symbols, hesitation
//! fillers are dropped, whitespace is collapsed, punctuation is tightened, paragraph
//! breaks are normalised and the first letter is capitalised.
use vstd::prelude::*;

use crate::text::{
    ascii_lower, ascii_lowercase, is_ascii_char, is_ascii_lower, replace_from, split_from, trim_end,
    trim_start, chars_of, is_alnum, is_alpha, is_ws, join, join_chars,
    occurs_at, occurs_at_exec, push_all, push_range, replace_all, replace_chars, split_chars,
    split_on, split_words, string_of, trim, trim_chars, upper_seq, uppercase_chars, views, words,
};

verus! {

// ---------------------------------------------------------------------------
// Specification
// ---------------------------------------------------------------------------

/// The spoken phrases that are turned into symbols, in the order they are applied.
pub open spec fn spoken_phrases() -> Seq<Seq<char>> {
    seq![
        "question mark"@,
        "exclamation mark"@,
        "full stop"@,
        "semicolon"@,
        "open bracket"@,
        "close bracket"@,
        "open paren"@,
        "close paren"@,
        "new paragraph"@,
        "period"@,
        "comma"@,
    ]
}

/// The symbol each spoken phrase stands for.
pub open spec fn spoken_symbols() -> Seq<Seq<char>> {
    seq!["?"@, "!"@, "."@, ";"@, "("@, ")"@, "("@, ")"@, "\n\n"@, "."@, ","@]
}

/// What each spoken phrase is turned into: "question mark" `?`, "exclamation mark" `!`,
/// "full stop" and "period" `.`, "semicolon" `;`, "open bracket" and "open paren" `(`,
/// "close bracket" and "close paren" `)`, "comma" `,` and "new paragraph" a blank line. The
/// opening phrases give opening brackets and the closing phrases closing ones.
pub proof fn lemma_spoken_punctuation(k: int)
    requires
        0 <= k < spoken_phrases().len(),
    ensures
        spoken_phrases().len() == spoken_symbols().len(),
        spoken_phrases()[k] == "question mark"@ ==> spoken_symbols()[k] == "?"@,
        spoken_phrases()[k] == "exclamation mark"@ ==> spoken_symbols()[k] == "!"@,
        spoken_phrases()[k] == "full stop"@ ==> spoken_symbols()[k] == "."@,
        spoken_phrases()[k] == "period"@ ==> spoken_symbols()[k] == "."@,
        spoken_phrases()[k] == "semicolon"@ ==> spoken_symbols()[k] == ";"@,
        spoken_phrases()[k] == "open bracket"@ ==> spoken_symbols()[k] == "("@,
        spoken_phrases()[k] == "open paren"@ ==> spoken_symbols()[k] == "("@,
        spoken_phrases()[k] == "close bracket"@ ==> spoken_symbols()[k] == ")"@,
        spoken_phrases()[k] == "close paren"@ ==> spoken_symbols()[k] == ")"@,
        spoken_phrases()[k] == "comma"@ ==> spoken_symbols()[k] == ","@,
        spoken_phrases()[k] == "new paragraph"@ ==> spoken_symbols()[k] == "\n\n"@,
        spoken_phrases().contains("open bracket"@) && spoken_phrases().contains("close bracket"@)
            && spoken_phrases().contains("open paren"@) && spoken_phrases().contains("close paren"@),
{
    reveal_strlit("question mark");
    reveal_strlit("exclamation mark");
    reveal_strlit("full stop");
    reveal_strlit("semicolon");
    reveal_strlit("open bracket");
    reveal_strlit("close bracket");
    reveal_strlit("open paren");
    reveal_strlit("close paren");
    reveal_strlit("new paragraph");
    reveal_strlit("period");
    reveal_strlit("comma");
    assert(spoken_phrases()[4] == "open bracket"@);
    assert(spoken_phrases()[5] == "close bracket"@);
    assert(spoken_phrases()[6] == "open paren"@);
    assert(spoken_phrases()[7] == "close paren"@);
    assert("question mark"@.len() == 13 && "exclamation mark"@.len() == 16 && "full stop"@.len()
        == 9 && "semicolon"@.len() == 9 && "open bracket"@.len() == 12 && "close bracket"@.len()
        == 13 && "open paren"@.len() == 10 && "close paren"@.len() == 11 && "new paragraph"@.len()
        == 13 && "period"@.len() == 6 && "comma"@.len() == 5);
    // Phrases of equal length differ in their first letter.
    assert("question mark"@[0] != "close bracket"@[0] && "question mark"@[0] != "new paragraph"@[0]
        && "close bracket"@[0] != "new paragraph"@[0]);
    assert("full stop"@[0] != "semicolon"@[0]);
    let p = spoken_phrases();
    let q = spoken_symbols();
    if k == 0 {
        assert(p[k] == "question mark"@ && q[k] == "?"@);
    } else if k == 1 {
        assert(p[k] == "exclamation mark"@ && q[k] == "!"@);
    } else if k == 2 {
        assert(p[k] == "full stop"@ && q[k] == "."@);
    } else if k == 3 {
        assert(p[k] == "semicolon"@ && q[k] == ";"@);
    } else if k == 4 {
        assert(p[k] == "open bracket"@ && q[k] == "("@);
    } else if k == 5 {
        assert(p[k] == "close bracket"@ && q[k] == ")"@);
    } else if k == 6 {
        assert(p[k] == "open paren"@ && q[k] == "("@);
    } else if k == 7 {
        assert(p[k] == "close paren"@ && q[k] == ")"@);
    } else if k == 8 {
        assert(p[k] == "new paragraph"@ && q[k] == "\n\n"@);
    } else if k == 9 {
        assert(p[k] == "period"@ && q[k] == "."@);
    } else if k == 10 {
        assert(p[k] == "comma"@ && q[k] == ","@);
    }
}

/// Whether a match of a phrase at `start..end` of `s` stands alone as words: the characters
/// just before and just after it, where there are any, are not alphanumeric.
pub open spec fn at_word_boundary(s: Seq<char>, start: int, end: int) -> bool {
    &&& (start <= 0 || !is_alnum(s[start - 1]))
    &&& (end >= s.len() || !is_alnum(s[end]))
}

/// `s[i..]` with each occurrence of `phrase`, compared up to ASCII case, that stands alone
/// as words replaced by `rep`; occurrences are found left to right without overlap, and one
/// that is part of a longer word is kept as it is.
pub open spec fn replace_phrase_from(s: Seq<char>, phrase: Seq<char>, rep: Seq<char>, i: int) -> Seq<
    char,
>
    decreases s.len() - i,
{
    if i < 0 || i >= s.len() {
        Seq::empty()
    } else if phrase.len() > 0 && occurs_at(s, phrase, i, true) {
        (if at_word_boundary(s, i, i + phrase.len()) {
            rep
        } else {
            s.subrange(i, i + phrase.len())
        }) + replace_phrase_from(s, phrase, rep, i + phrase.len())
    } else {
        seq![s[i]] + replace_phrase_from(s, phrase, rep, i + 1)
    }
}

pub open spec fn replace_phrase(s: Seq<char>, phrase: Seq<char>, rep: Seq<char>) -> Seq<char> {
    replace_phrase_from(s, phrase, rep, 0)
}

/// `s` after the first `k` spoken phrases have been replaced by their symbols, each symbol
/// with a space on either side.
pub open spec fn apply_spoken(s: Seq<char>, k: nat) -> Seq<char>
    decreases k,
{
    if k == 0 {
        s
    } else {
        let t = apply_spoken(s, (k - 1) as nat);
        replace_phrase(t, spoken_phrases()[k - 1], seq![' '] + spoken_symbols()[k - 1] + seq![' '])
    }
}

/// `s` without its leading characters that are not alphanumeric.
pub open spec fn strip_start_non_alnum(s: Seq<char>) -> Seq<char>
    decreases s.len(),
{
    if s.len() > 0 && !is_alnum(s[0]) {
        strip_start_non_alnum(s.drop_first())
    } else {
        s
    }
}

/// `s` without its trailing characters that are not alphanumeric.
pub open spec fn strip_end_non_alnum(s: Seq<char>) -> Seq<char>
    decreases s.len(),
{
    if s.len() > 0 && !is_alnum(s.last()) {
        strip_end_non_alnum(s.drop_last())
    } else {
        s
    }
}

/// Whether `w` is `first` followed by one or more `rest`, up to ASCII case (`um`, `Ummm`,
/// ...). A lone letter is a word of its own (the article `a`), never a hesitation.
pub open spec fn is_hesitation(w: Seq<char>, first: char, rest: char) -> bool {
    &&& w.len() >= 2
    &&& ascii_lower(w[0]) == first
    &&& forall|k: int| 1 <= k < w.len() ==> ascii_lower(#[trigger] w[k]) == rest
}

/// Whether a whitespace-separated token is a hesitation filler: once stripped of surrounding
/// characters that are not alphanumeric it is a form of `um`, `uh`, `er` or `ah`.
pub open spec fn is_filler_token(token: Seq<char>) -> bool {
    let core = strip_end_non_alnum(strip_start_non_alnum(token));
    &&& core.len() > 0
    &&& {
        ||| is_hesitation(core, 'u', 'm')
        ||| is_hesitation(core, 'u', 'h')
        ||| is_hesitation(core, 'e', 'r')
        ||| is_hesitation(core, 'a', 'h')
    }
}

/// The marks before which no space is kept.
pub open spec fn is_sentence_mark(c: char) -> bool {
    c == ',' || c == '.' || c == ';' || c == ':' || c == '!' || c == '?'
}

/// `s` with whitespace dropped: a run of whitespace becomes one space when a character that is
/// not a sentence mark follows it, and disappears before a sentence mark or at the end.
/// `pending` tells whether whitespace came just before `s`.
pub open spec fn tighten(s: Seq<char>, pending: bool) -> Seq<char>
    decreases s.len(),
{
    if s.len() == 0 {
        Seq::empty()
    } else if is_ws(s[0]) {
        tighten(s.drop_first(), true)
    } else {
        (if pending && !is_sentence_mark(s[0]) {
            seq![' ', s[0]]
        } else {
            seq![s[0]]
        }) + tighten(s.drop_first(), false)
    }
}

/// How strongly a sentence mark ends a clause: `?` and `!` above `.`, which is above `,` `;` `:`.
pub open spec fn mark_rank(c: char) -> int {
    if c == '?' || c == '!' {
        3
    } else if c == '.' {
        2
    } else {
        1
    }
}

/// Of two adjacent sentence marks, the one that is kept: the stronger, or the first if equal.
pub open spec fn stronger_mark(held: char, next: char) -> char {
    if mark_rank(next) > mark_rank(held) {
        next
    } else {
        held
    }
}

pub open spec fn held_mark(held: Option<char>) -> Seq<char> {
    match held {
        Some(m) => seq![m],
        None => Seq::empty(),
    }
}

/// `s` with every run of adjacent sentence marks reduced to its strongest mark; `held` is the
/// mark kept so far from a run that reaches the start of `s`.
pub open spec fn collapse_marks(s: Seq<char>, held: Option<char>) -> Seq<char>
    decreases s.len(),
{
    if s.len() == 0 {
        held_mark(held)
    } else if is_sentence_mark(s[0]) {
        collapse_marks(
            s.drop_first(),
            Some(
                match held {
                    Some(m) => stronger_mark(m, s[0]),
                    None => s[0],
                },
            ),
        )
    } else {
        held_mark(held) + seq![s[0]] + collapse_marks(s.drop_first(), None)
    }
}

/// Paragraphs of `s` (the pieces between blank-line breaks) trimmed and joined again with a
/// single blank-line break, and the whole trimmed.
pub open spec fn normalize_paragraphs(s: Seq<char>) -> Seq<char> {
    trim(join(split_on(s, "\n\n"@).map_values(|p: Seq<char>| trim(p)), "\n\n"@))
}

/// `s` with its first character upper-cased when it is alphabetic.
pub open spec fn capitalize(s: Seq<char>) -> Seq<char> {
    if s.len() > 0 && is_alpha(s[0]) {
        upper_seq(s[0]) + s.drop_first()
    } else {
        s
    }
}

/// The placeholder that stands for a paragraph break while whitespace is collapsed.
pub open spec fn paragraph_marker() -> Seq<char> {
    "__PARAGRAPH_BREAK__"@
}

/// The words of `s` that are not fillers, joined with single spaces.
pub open spec fn without_fillers(s: Seq<char>) -> Seq<char> {
    join(words(s).filter(|w: Seq<char>| !is_filler_token(w)), " "@)
}

/// The words of `s` joined with single spaces.
pub open spec fn collapse_ws(s: Seq<char>) -> Seq<char> {
    join(words(s), " "@)
}

/// The cleaned form of a transcript before its first letter is capitalised.
pub open spec fn uncapitalized(text: Seq<char>) -> Seq<char> {
    let padded = seq![' '] + trim(text) + seq![' '];
    let spoken = apply_spoken(padded, 11);
    let marked = replace_all(spoken, "\n\n"@, " "@ + paragraph_marker() + " "@);
    let kept = without_fillers(marked);
    let collapsed = collapse_ws(kept);
    let tight = collapse_marks(trim(tighten(collapsed, false)), None);
    let restored = replace_all(tight, paragraph_marker(), "\n\n"@);
    normalize_paragraphs(restored)
}

/// The cleaned form of a transcript: spoken punctuation replaced, fillers dropped, whitespace
/// collapsed, spaces before sentence marks removed, runs of marks reduced to the strongest,
/// paragraph breaks normalised and the first letter capitalised.
pub open spec fn cleaned(text: Seq<char>) -> Seq<char> {
    capitalize(uncapitalized(text))
}

// ---------------------------------------------------------------------------
// Laws
// ---------------------------------------------------------------------------

proof fn lemma_replace_phrase_short(s: Seq<char>, phrase: Seq<char>, rep: Seq<char>, i: int)
    requires
        phrase.len() > s.len(),
        0 <= i <= s.len(),
    ensures
        replace_phrase_from(s, phrase, rep, i) == s.skip(i),
    decreases s.len() - i,
{
    if i < s.len() {
        lemma_replace_phrase_short(s, phrase, rep, i + 1);
        assert(!occurs_at(s, phrase, i, true));
        assert(seq![s[i]] + s.skip(i + 1) =~= s.skip(i));
    } else {
        assert(s.skip(i) =~= Seq::<char>::empty());
    }
}

proof fn lemma_spoken_phrases_long()
    ensures
        forall|j: int| 0 <= j < spoken_phrases().len() ==> #[trigger] spoken_phrases()[j].len() >= 5,
        spoken_phrases().len() == 11,
{
    reveal_strlit("question mark");
    reveal_strlit("exclamation mark");
    reveal_strlit("full stop");
    reveal_strlit("semicolon");
    reveal_strlit("open bracket");
    reveal_strlit("close bracket");
    reveal_strlit("open paren");
    reveal_strlit("close paren");
    reveal_strlit("new paragraph");
    reveal_strlit("period");
    reveal_strlit("comma");
}

proof fn lemma_apply_spoken_short(s: Seq<char>, k: nat)
    requires
        k <= 11,
        s.len() < 5,
    ensures
        apply_spoken(s, k) == s,
    decreases k,
{
    if k > 0 {
        lemma_apply_spoken_short(s, (k - 1) as nat);
        lemma_spoken_phrases_long();
        let ph = spoken_phrases()[k - 1];
        lemma_replace_phrase_short(
            s,
            ph,
            seq![' '] + spoken_symbols()[k - 1] + seq![' '],
            0,
        );
        assert(s.skip(0) =~= s);
    }
}

/// A word of one letter or digit, such as the article `a`, is never taken for a filler.
pub proof fn lemma_one_letter_word_kept(c: char)
    requires
        is_alnum(c),
    ensures
        !is_filler_token(seq![c]),
{
    let w = seq![c];
    assert(strip_start_non_alnum(w) == w);
    assert(strip_end_non_alnum(w) == w);
}

proof fn lemma_trim_start_front(s: Seq<char>)
    ensures
        trim_start(s).len() > 0 ==> !is_ws(trim_start(s)[0]),
        trim_start(s).len() <= s.len(),
    decreases s.len(),
{
    if s.len() > 0 && is_ws(s[0]) {
        lemma_trim_start_front(s.drop_first());
    }
}

proof fn lemma_trim_end_ends(s: Seq<char>)
    ensures
        trim_end(s).len() > 0 ==> !is_ws(trim_end(s).last()),
        trim_end(s).len() <= s.len(),
        trim_end(s) =~= s.take(trim_end(s).len() as int),
    decreases s.len(),
{
    if s.len() > 0 && is_ws(s.last()) {
        lemma_trim_end_ends(s.drop_last());
        let t = trim_end(s.drop_last());
        assert(s.drop_last().take(t.len() as int) =~= s.take(t.len() as int));
    } else {
        assert(s.take(s.len() as int) =~= s);
    }
}

/// A trimmed sequence starts and ends with a character that is not whitespace.
proof fn lemma_trim_has_plain_ends(s: Seq<char>)
    ensures
        trim(s).len() > 0 ==> !is_ws(trim(s)[0]) && !is_ws(trim(s).last()),
{
    let t = trim_start(s);
    lemma_trim_start_front(s);
    lemma_trim_end_ends(t);
    if trim(s).len() > 0 {
        assert(trim(s)[0] == t[0]);
    }
}

// ---------------------------------------------------------------------------
// The shape of cleaned text
// ---------------------------------------------------------------------------

/// Whether every line feed of `s` belongs to a pair, reading the pairs from the start.
pub open spec fn newlines_paired(s: Seq<char>) -> bool
    decreases s.len(),
{
    if s.len() == 0 {
        true
    } else if s[0] == '\n' {
        s.len() >= 2 && s[1] == '\n' && newlines_paired(s.skip(2))
    } else {
        newlines_paired(s.skip(1))
    }
}

/// Whether `c` is a space or not whitespace at all.
pub open spec fn plain_or_space(c: char) -> bool {
    c == ' ' || !is_ws(c)
}

/// Whether the only whitespace of `s` is single spaces, each followed by a character that is
/// neither whitespace nor a sentence mark.
pub open spec fn spaced(s: Seq<char>) -> bool {
    forall|k: int|
        #![trigger s[k]]
        0 <= k < s.len() ==> plain_or_space(s[k]) && (s[k] == ' ' ==> k + 1 < s.len() && !is_ws(
            s[k + 1],
        ) && !is_sentence_mark(s[k + 1]))
}

/// Like `spaced`, except that a space may also stand last or before a line feed, and line
/// feeds may occur.
pub open spec fn loosely_spaced(s: Seq<char>) -> bool {
    forall|k: int|
        #![trigger s[k]]
        0 <= k < s.len() ==> (s[k] == ' ' || s[k] == '\n' || !is_ws(s[k])) && (s[k] == ' ' && k
            + 1 < s.len() ==> s[k + 1] == '\n' || (!is_ws(s[k + 1]) && !is_sentence_mark(s[k + 1])))
}

/// Like `spaced`, except that a space may stand last.
pub open spec fn piece_spaced(s: Seq<char>) -> bool {
    forall|k: int|
        #![trigger s[k]]
        0 <= k < s.len() ==> plain_or_space(s[k]) && (s[k] == ' ' && k + 1 < s.len() ==> !is_ws(
            s[k + 1],
        ) && !is_sentence_mark(s[k + 1]))
}

/// Whether the whitespace of `s` is only spaces and line feeds, every space is followed by a
/// character that is neither whitespace nor a sentence mark, and no space follows a line feed.
pub open spec fn well_spaced(s: Seq<char>) -> bool {
    forall|k: int|
        #![trigger s[k]]
        0 <= k < s.len() ==> {
            &&& s[k] == ' ' || s[k] == '\n' || !is_ws(s[k])
            &&& s[k] == ' ' ==> k + 1 < s.len() && !is_ws(s[k + 1]) && !is_sentence_mark(s[k + 1])
            &&& s[k] == '\n' && k + 1 < s.len() ==> s[k + 1] != ' '
        }
}

proof fn lemma_ws_chars()
    ensures
        is_ws(' '),
        is_ws('\n'),
        forall|c: char| #[trigger] is_sentence_mark(c) ==> !is_ws(c) && c != ' ' && c != '\n',
{
}

proof fn lemma_tighten_spaced(s: Seq<char>, pending: bool)
    ensures
        spaced(tighten(s, pending)),
    decreases s.len(),
{
    lemma_ws_chars();
    if s.len() == 0 {
    } else if is_ws(s[0]) {
        lemma_tighten_spaced(s.drop_first(), true);
    } else {
        lemma_tighten_spaced(s.drop_first(), false);
        let rest = tighten(s.drop_first(), false);
        let head = if pending && !is_sentence_mark(s[0]) {
            seq![' ', s[0]]
        } else {
            seq![s[0]]
        };
        let t = head + rest;
        assert(tighten(s, pending) == t);
        assert forall|k: int| #![trigger t[k]] 0 <= k < t.len() implies plain_or_space(t[k]) && (t[k] == ' ' ==> k
            + 1 < t.len() && !is_ws(t[k + 1]) && !is_sentence_mark(t[k + 1])) by {
            if k >= head.len() {
                assert(t[k] == rest[k - head.len()]);
                if k + 1 < t.len() {
                    assert(t[k + 1] == rest[k + 1 - head.len()]);
                }
            } else if k + 1 < t.len() && k + 1 >= head.len() {
                assert(t[k + 1] == rest[k + 1 - head.len()]);
            }
        }
    }
}

proof fn lemma_spaced_drop_first(s: Seq<char>)
    requires
        spaced(s),
        s.len() > 0,
    ensures
        spaced(s.drop_first()),
{
    let d = s.drop_first();
    assert forall|k: int| #![trigger d[k]] 0 <= k < d.len() implies plain_or_space(d[k]) && (d[k] == ' ' ==> k + 1
        < d.len() && !is_ws(d[k + 1]) && !is_sentence_mark(d[k + 1])) by {
        assert(d[k] == s[k + 1]);
        if k + 1 < d.len() {
            assert(d[k + 1] == s[k + 2]);
        }
    }
}

proof fn lemma_spaced_trim(s: Seq<char>)
    requires
        spaced(s),
    ensures
        spaced(trim(s)),
    decreases s.len(),
{
    lemma_ws_chars();
    if s.len() > 0 && is_ws(s[0]) {
        lemma_spaced_drop_first(s);
        lemma_spaced_trim(s.drop_first());
        assert(trim_start(s) == trim_start(s.drop_first()));
    } else {
        assert(trim_start(s) == s);
        if s.len() > 0 {
            let k = s.len() - 1;
            assert(plain_or_space(s[k]));
            assert(!is_ws(s.last()));
        }
        assert(trim_end(s) == s);
    }
}

proof fn lemma_collapse_spaced(s: Seq<char>, held: Option<char>)
    requires
        spaced(s),
        held matches Some(m) ==> is_sentence_mark(m),
    ensures
        spaced(collapse_marks(s, held)),
    decreases s.len(),
{
    lemma_ws_chars();
    if s.len() == 0 {
    } else {
        let d = s.drop_first();
        lemma_spaced_drop_first(s);
        if is_sentence_mark(s[0]) {
            let m = match held {
                Some(m) => stronger_mark(m, s[0]),
                None => s[0],
            };
            lemma_collapse_spaced(d, Some(m));
        } else {
            lemma_collapse_spaced(d, None);
            let c = collapse_marks(d, None);
            let h = held_mark(held);
            let t = h + seq![s[0]] + c;
            assert(collapse_marks(s, held) == t);
            if s[0] == ' ' {
                assert(d.len() > 0 && d[0] == s[1]);
                assert(!is_sentence_mark(d[0]));
                assert(c == held_mark(None) + seq![d[0]] + collapse_marks(d.drop_first(), None));
                assert(c[0] == d[0]);
            }
            assert forall|k: int| #![trigger t[k]] 0 <= k < t.len() implies plain_or_space(t[k]) && (t[k] == ' '
                ==> k + 1 < t.len() && !is_ws(t[k + 1]) && !is_sentence_mark(t[k + 1])) by {
                let hl = h.len() as int;
                if k < hl {
                    assert(t[k] == held->0);
                } else if k == hl {
                    assert(t[k] == s[0]);
                    if s[0] == ' ' {
                        assert(t[k + 1] == c[0]);
                    }
                } else {
                    assert(t[k] == c[k - hl - 1]);
                    if k + 1 < t.len() {
                        assert(t[k + 1] == c[k + 1 - hl - 1]);
                    }
                }
            }
        }
    }
}

proof fn lemma_restore_loosely_spaced(s: Seq<char>, i: int)
    requires
        spaced(s),
        0 <= i <= s.len(),
    ensures
        loosely_spaced(replace_from(s, paragraph_marker(), "\n\n"@, i)),
        newlines_paired(replace_from(s, paragraph_marker(), "\n\n"@, i)),
        i < s.len() ==> replace_from(s, paragraph_marker(), "\n\n"@, i).len() > 0 && (replace_from(
            s,
            paragraph_marker(),
            "\n\n"@,
            i,
        )[0] == '\n' || replace_from(s, paragraph_marker(), "\n\n"@, i)[0] == s[i]),
    decreases s.len() - i,
{
    lemma_ws_chars();
    reveal_strlit("__PARAGRAPH_BREAK__");
    reveal_strlit("\n\n");
    let m = paragraph_marker();
    let nn: Seq<char> = "\n\n"@;
    let r = replace_from(s, m, nn, i);
    if i >= s.len() {
        assert(r.len() == 0);
    } else if occurs_at(s, m, i, false) {
        let j = i + m.len();
        lemma_restore_loosely_spaced(s, j);
        let rest = replace_from(s, m, nn, j);
        assert(r == nn + rest);
        assert forall|k: int| #![trigger r[k]] 0 <= k < r.len() implies (r[k] == ' ' || r[k] == '\n' || !is_ws(r[k]))
            && (r[k] == ' ' && k + 1 < r.len() ==> r[k + 1] == '\n' || (!is_ws(r[k + 1])
            && !is_sentence_mark(r[k + 1]))) by {
            if k >= 2 {
                assert(r[k] == rest[k - 2]);
                if k + 1 < r.len() {
                    assert(r[k + 1] == rest[k - 1]);
                }
            }
        }
        assert(r.skip(2) =~= rest);
    } else {
        lemma_restore_loosely_spaced(s, i + 1);
        let rest = replace_from(s, m, nn, i + 1);
        assert(r == seq![s[i]] + rest);
        assert(plain_or_space(s[i]));
        assert forall|k: int| #![trigger r[k]] 0 <= k < r.len() implies (r[k] == ' ' || r[k] == '\n' || !is_ws(r[k]))
            && (r[k] == ' ' && k + 1 < r.len() ==> r[k + 1] == '\n' || (!is_ws(r[k + 1])
            && !is_sentence_mark(r[k + 1]))) by {
            if k >= 1 {
                assert(r[k] == rest[k - 1]);
                if k + 1 < r.len() {
                    assert(r[k + 1] == rest[k]);
                }
            } else if s[i] == ' ' {
                assert(i + 1 < s.len());
                assert(r[1] == rest[0]);
            }
        }
        assert(r.skip(1) =~= rest);
    }
}

proof fn lemma_split_pieces(s: Seq<char>, i: int, cur: Seq<char>)
    requires
        loosely_spaced(s),
        0 <= i <= s.len(),
        newlines_paired(s.skip(i)),
        piece_spaced(cur),
        cur.len() > 0 ==> i > 0 && cur.last() == s[i - 1],
    ensures
        forall|j: int|
            0 <= j < split_from(s, "\n\n"@, i, cur).len() ==> piece_spaced(
                #[trigger] split_from(s, "\n\n"@, i, cur)[j],
            ),
    decreases s.len() - i,
{
    lemma_ws_chars();
    reveal_strlit("\n\n");
    let nn: Seq<char> = "\n\n"@;
    let r = split_from(s, nn, i, cur);
    if i >= s.len() {
        assert(r == seq![cur]);
    } else if occurs_at(s, nn, i, false) {
        let t = s.skip(i);
        assert(nn[0] == '\n' && nn[1] == '\n');
        assert(s[i + 0] == nn[0]);
        assert(t[0] == '\n');
        assert(t.skip(2) =~= s.skip(i + 2));
        lemma_split_pieces(s, i + 2, Seq::empty());
        let rest = split_from(s, nn, i + 2, Seq::empty());
        assert(r == seq![cur] + rest);
        assert forall|j: int| #![trigger r[j]] 0 <= j < r.len() implies piece_spaced(#[trigger] r[j]) by {
            if j > 0 {
                assert(r[j] == rest[j - 1]);
            }
        }
    } else {
        let t = s.skip(i);
        assert(t[0] == s[i]);
        if s[i] == '\n' {
            assert(t.len() >= 2 && t[1] == '\n');
            assert(s[i + 1] == t[1]);
            assert(occurs_at(s, nn, i, false));
        }
        assert(t.skip(1) =~= s.skip(i + 1));
        let c2 = cur.push(s[i]);
        assert forall|k: int| #![trigger c2[k]] 0 <= k < c2.len() implies plain_or_space(c2[k]) && (c2[k] == ' '
            && k + 1 < c2.len() ==> !is_ws(c2[k + 1]) && !is_sentence_mark(c2[k + 1])) by {
            if k < cur.len() {
                assert(c2[k] == cur[k]);
                if k + 1 < cur.len() {
                    assert(c2[k + 1] == cur[k + 1]);
                } else if k + 1 == cur.len() {
                    assert(c2[k] == s[i - 1]);
                    assert(c2[k + 1] == s[i]);
                }
            }
        }
        lemma_split_pieces(s, i + 1, c2);
        assert(r == split_from(s, nn, i + 1, c2));
    }
}

proof fn lemma_piece_trim(p: Seq<char>)
    requires
        piece_spaced(p),
    ensures
        spaced(trim(p)),
        trim(p).len() > 0 ==> !is_ws(trim(p)[0]),
    decreases p.len(),
{
    lemma_ws_chars();
    lemma_trim_has_plain_ends(p);
    if p.len() > 0 && is_ws(p[0]) {
        let d = p.drop_first();
        assert forall|k: int| #![trigger d[k]] 0 <= k < d.len() implies plain_or_space(d[k]) && (d[k] == ' ' && k + 1
            < d.len() ==> !is_ws(d[k + 1]) && !is_sentence_mark(d[k + 1])) by {
            assert(d[k] == p[k + 1]);
            if k + 1 < d.len() {
                assert(d[k + 1] == p[k + 2]);
            }
        }
        lemma_piece_trim(d);
        assert(trim_start(p) == trim_start(d));
    } else {
        assert(trim_start(p) == p);
        lemma_trim_end_ends(p);
        let q = trim_end(p);
        assert forall|k: int| #![trigger q[k]] 0 <= k < q.len() implies plain_or_space(q[k]) && (q[k] == ' ' ==> k
            + 1 < q.len() && !is_ws(q[k + 1]) && !is_sentence_mark(q[k + 1])) by {
            assert(q[k] == p[k]);
            if q[k] == ' ' {
                assert(k != q.len() - 1);
                assert(q[k + 1] == p[k + 1]);
            }
        }
    }
}

proof fn lemma_join_well_spaced(parts: Seq<Seq<char>>)
    requires
        forall|j: int|
            0 <= j < parts.len() ==> spaced(#[trigger] parts[j]) && (parts[j].len() > 0 ==> !is_ws(
                parts[j][0],
            )),
    ensures
        well_spaced(join(parts, "\n\n"@)),
    decreases parts.len(),
{
    lemma_ws_chars();
    reveal_strlit("\n\n");
    let nn: Seq<char> = "\n\n"@;
    if parts.len() == 0 {
    } else if parts.len() == 1 {
        let p = parts[0];
        assert(join(parts, nn) == p);
        assert forall|k: int| #![trigger p[k]] 0 <= k < p.len() implies ({
            &&& p[k] == ' ' || p[k] == '\n' || !is_ws(p[k])
            &&& p[k] == ' ' ==> k + 1 < p.len() && !is_ws(p[k + 1]) && !is_sentence_mark(p[k + 1])
            &&& p[k] == '\n' && k + 1 < p.len() ==> p[k + 1] != ' '
        }) by {
            assert(plain_or_space(p[k]));
        }
    } else {
        let front = parts.drop_last();
        assert forall|j: int| #![trigger front[j]] 0 <= j < front.len() implies spaced(#[trigger] front[j]) && (
        front[j].len() > 0 ==> !is_ws(front[j][0])) by {
            assert(front[j] == parts[j]);
        }
        lemma_join_well_spaced(front);
        let a = join(front, nn);
        let p = parts.last();
        assert(spaced(p) && (p.len() > 0 ==> !is_ws(p[0]))) by {
            assert(p == parts[parts.len() - 1]);
        }
        let t = a + nn + p;
        assert(join(parts, nn) == t);
        let al = a.len() as int;
        assert forall|k: int| #![trigger t[k]] 0 <= k < t.len() implies ({
            &&& t[k] == ' ' || t[k] == '\n' || !is_ws(t[k])
            &&& t[k] == ' ' ==> k + 1 < t.len() && !is_ws(t[k + 1]) && !is_sentence_mark(t[k + 1])
            &&& t[k] == '\n' && k + 1 < t.len() ==> t[k + 1] != ' '
        }) by {
            if k < al {
                assert(t[k] == a[k]);
                if k + 1 < al {
                    assert(t[k + 1] == a[k + 1]);
                } else {
                    assert(t[k + 1] == '\n');
                }
            } else if k < al + 2 {
                assert(t[k] == '\n');
                if k + 1 < al + 2 {
                    assert(t[k + 1] == '\n');
                } else if k + 1 < t.len() {
                    assert(t[k + 1] == p[0]);
                }
            } else {
                assert(t[k] == p[k - al - 2]);
                assert(plain_or_space(p[k - al - 2]));
                if k + 1 < t.len() {
                    assert(t[k + 1] == p[k + 1 - al - 2]);
                }
            }
        }
    }
}

proof fn lemma_well_spaced_trim(s: Seq<char>)
    requires
        well_spaced(s),
    ensures
        well_spaced(trim(s)),
{
    lemma_well_spaced_trim_start(s);
    lemma_well_spaced_trim_end(trim_start(s));
}

proof fn lemma_well_spaced_trim_start(s: Seq<char>)
    requires
        well_spaced(s),
    ensures
        well_spaced(trim_start(s)),
    decreases s.len(),
{
    if s.len() > 0 && is_ws(s[0]) {
        let d = s.drop_first();
        assert forall|k: int| #![trigger d[k]] 0 <= k < d.len() implies ({
            &&& d[k] == ' ' || d[k] == '\n' || !is_ws(d[k])
            &&& d[k] == ' ' ==> k + 1 < d.len() && !is_ws(d[k + 1]) && !is_sentence_mark(d[k + 1])
            &&& d[k] == '\n' && k + 1 < d.len() ==> d[k + 1] != ' '
        }) by {
            assert(d[k] == s[k + 1]);
            if k + 1 < d.len() {
                assert(d[k + 1] == s[k + 2]);
            }
        }
        lemma_well_spaced_trim_start(d);
    }
}

proof fn lemma_well_spaced_trim_end(s: Seq<char>)
    requires
        well_spaced(s),
    ensures
        well_spaced(trim_end(s)),
    decreases s.len(),
{
    lemma_ws_chars();
    if s.len() > 0 && is_ws(s.last()) {
        let d = s.drop_last();
        assert forall|k: int| #![trigger d[k]] 0 <= k < d.len() implies ({
            &&& d[k] == ' ' || d[k] == '\n' || !is_ws(d[k])
            &&& d[k] == ' ' ==> k + 1 < d.len() && !is_ws(d[k + 1]) && !is_sentence_mark(d[k + 1])
            &&& d[k] == '\n' && k + 1 < d.len() ==> d[k + 1] != ' '
        }) by {
            assert(d[k] == s[k]);
            if k + 1 < s.len() {
                assert(s[k + 1] == s.last() || k + 1 < d.len());
            }
        }
        lemma_well_spaced_trim_end(d);
    }
}

proof fn lemma_capitalize_well_spaced(n: Seq<char>)
    requires
        well_spaced(n),
        plain_start(n),
        n.len() > 0 ==> !is_ws(n[0]),
    ensures
        well_spaced(capitalize(n)),
{
    lemma_ws_chars();
    if n.len() > 0 && is_alpha(n[0]) {
        let c = n[0];
        let u = upper_seq(c);
        if is_ascii_lower(c) {
            assert((((c as u32) - 32) as char) as u32 == (c as u32) - 32);
        }
        assert(u.len() == 1 && !is_ws(u[0]) && u[0] != ' ' && u[0] != '\n');
        let r = u + n.drop_first();
        assert(capitalize(n) == r);
        assert forall|k: int| #![trigger r[k]] 0 <= k < r.len() implies ({
            &&& r[k] == ' ' || r[k] == '\n' || !is_ws(r[k])
            &&& r[k] == ' ' ==> k + 1 < r.len() && !is_ws(r[k + 1]) && !is_sentence_mark(r[k + 1])
            &&& r[k] == '\n' && k + 1 < r.len() ==> r[k + 1] != ' '
        }) by {
            if k >= 1 {
                assert(r[k] == n[k]);
                if k + 1 < r.len() {
                    assert(r[k + 1] == n[k + 1]);
                }
            }
        }
    }
}

/// Whether the first character of `s`, if any, is capitalised by the rules spelled out here:
/// it is not a letter beyond ASCII, whose upper-case form the Unicode tables decide.
pub open spec fn plain_start(s: Seq<char>) -> bool {
    s.len() == 0 || is_ascii_char(s[0]) || !is_alpha(s[0])
}

/// Cleaned text has no whitespace at either end and does not start with a lower-case letter.
/// Left out is only the text whose first character is a letter beyond ASCII, whose upper-case
/// form the Unicode tables decide.
pub proof fn lemma_cleaned_is_trimmed_and_capitalized(text: Seq<char>)
    requires
        plain_start(uncapitalized(text)),
    ensures
        trim(cleaned(text)) == cleaned(text),
        cleaned(text).len() > 0 ==> !is_ascii_lower(cleaned(text)[0]),
{
    let n = uncapitalized(text);
    assert forall|x: Seq<char>| #[trigger] trim(x).len() > 0 implies !is_ws(trim(x)[0]) && !is_ws(
        trim(x).last(),
    ) by {
        lemma_trim_has_plain_ends(x);
    }
    assert(n.len() > 0 ==> !is_ws(n[0]) && !is_ws(n.last()));
    let r = cleaned(text);
    if n.len() > 0 && is_alpha(n[0]) {
        let c = n[0];
        assert(is_ascii_char(c));
        let u = upper_seq(c);
        assert(u.len() == 1);
        assert(is_alpha(u[0])) by {
            if is_ascii_lower(c) {
                assert((((c as u32) - 32) as char) as u32 == (c as u32) - 32);
            }
        }
        assert(r =~= u + n.drop_first());
        assert(r[0] == u[0]);
        assert(!is_ascii_lower(u[0])) by {
            if is_ascii_lower(c) {
                assert((((c as u32) - 32) as char) as u32 == (c as u32) - 32);
            }
        }
        if n.len() > 1 {
            assert(r.last() == n.last());
        }
    }
    if r.len() > 0 {
        assert(!is_ws(r[0]) && !is_ws(r.last()));
        assert(trim_start(r) == r);
        assert(trim_end(r) == r);
    } else {
        assert(trim_start(r) == r);
    }
}

/// The spacing of cleaned text: its only whitespace is spaces and line feeds; a space is never
/// followed by another space, by a sentence mark or by a line feed, and never follows a line
/// feed; there is no whitespace at either end; and it does not start with a lower-case letter.
/// Left out is only the text whose first character is a letter beyond ASCII, whose upper-case
/// form the Unicode tables decide.
pub proof fn lemma_cleaned_text_shape(text: Seq<char>)
    requires
        plain_start(uncapitalized(text)),
    ensures
        trim(cleaned(text)) == cleaned(text),
        cleaned(text).len() > 0 ==> !is_ascii_lower(cleaned(text)[0]),
        forall|k: int|
            0 <= k < cleaned(text).len() && is_ws(#[trigger] cleaned(text)[k]) ==> cleaned(text)[k]
                == ' ' || cleaned(text)[k] == '\n',
        forall|k: int|
            0 <= k < cleaned(text).len() - 1 && #[trigger] cleaned(text)[k] == ' ' ==> {
                &&& cleaned(text)[k + 1] != ' '
                &&& !is_sentence_mark(cleaned(text)[k + 1])
                &&& cleaned(text)[k + 1] != '\n'
            },
        forall|k: int|
            0 <= k < cleaned(text).len() - 1 && #[trigger] cleaned(text)[k] == '\n' ==> cleaned(
                text,
            )[k + 1] != ' ',
{
    lemma_ws_chars();
    lemma_cleaned_is_trimmed_and_capitalized(text);
    reveal_strlit("\n\n");
    let nn: Seq<char> = "\n\n"@;
    let padded = seq![' '] + trim(text) + seq![' '];
    let spoken = apply_spoken(padded, 11);
    let marked = replace_all(spoken, nn, " "@ + paragraph_marker() + " "@);
    let kept = without_fillers(marked);
    let collapsed = collapse_ws(kept);
    let t0 = tighten(collapsed, false);
    lemma_tighten_spaced(collapsed, false);
    lemma_spaced_trim(t0);
    let t1 = trim(t0);
    lemma_collapse_spaced(t1, None);
    let tight = collapse_marks(t1, None);
    lemma_restore_loosely_spaced(tight, 0);
    let restored = replace_all(tight, paragraph_marker(), nn);
    assert(restored.skip(0) =~= restored);
    lemma_split_pieces(restored, 0, Seq::empty());
    let pieces = split_on(restored, nn);
    let parts = pieces.map_values(|p: Seq<char>| trim(p));
    assert forall|j: int| 0 <= j < parts.len() implies spaced(#[trigger] parts[j]) && (
    parts[j].len() > 0 ==> !is_ws(parts[j][0])) by {
        assert(parts[j] == trim(pieces[j]));
        lemma_piece_trim(pieces[j]);
    }
    lemma_join_well_spaced(parts);
    lemma_well_spaced_trim(join(parts, nn));
    let n = trim(join(parts, nn));
    assert(n == uncapitalized(text));
    lemma_trim_has_plain_ends(join(parts, nn));
    lemma_capitalize_well_spaced(n);
    let r = cleaned(text);
    assert(well_spaced(r));
}

/// A transcript with nothing but whitespace cleans up to nothing.
pub proof fn lemma_blank_transcript_cleans_to_nothing(text: Seq<char>)
    requires
        trim(text).len() == 0,
    ensures
        cleaned(text).len() == 0,
{
    let padded = seq![' '] + trim(text) + seq![' '];
    assert(padded =~= seq![' ', ' ']);
    lemma_apply_spoken_short(padded, 11);
    let spoken = apply_spoken(padded, 11);
    reveal_strlit("\n\n");
    let nl: Seq<char> = "\n\n"@;
    let rep = " "@ + paragraph_marker() + " "@;
    assert(!occurs_at(spoken, nl, 0, false)) by {
        assert(spoken[0int + 0int] != nl[0]);
    }
    assert(!occurs_at(spoken, nl, 1, false));
    assert(crate::text::replace_from(spoken, nl, rep, 2) == Seq::<char>::empty());
    assert(crate::text::replace_from(spoken, nl, rep, 1) =~= seq![' ']);
    assert(crate::text::replace_from(spoken, nl, rep, 0) =~= seq![' ', ' ']);
    let marked = replace_all(spoken, nl, rep);
    assert(marked =~= seq![' ', ' ']);
    assert(crate::text::words_from(marked, 2, Seq::empty()) == Seq::<Seq<char>>::empty());
    assert(crate::text::words_from(marked, 1, Seq::empty()) =~= Seq::<Seq<char>>::empty());
    assert(crate::text::words_from(marked, 0, Seq::empty()) =~= Seq::<Seq<char>>::empty());
    assert(words(marked) =~= Seq::<Seq<char>>::empty());
    let filtered = words(marked).filter(|w: Seq<char>| !is_filler_token(w));
    assert(filtered =~= Seq::<Seq<char>>::empty());
    let kept = without_fillers(marked);
    assert(kept =~= Seq::<char>::empty());
    assert(crate::text::words_from(kept, 0, Seq::empty()) =~= Seq::<Seq<char>>::empty());
    let collapsed = collapse_ws(kept);
    assert(collapsed =~= Seq::<char>::empty());
    assert(tighten(collapsed, false) =~= Seq::<char>::empty());
    assert(trim(Seq::<char>::empty()) =~= Seq::<char>::empty());
    let tight = collapse_marks(trim(tighten(collapsed, false)), None);
    assert(tight =~= Seq::<char>::empty());
    let restored = replace_all(tight, paragraph_marker(), "\n\n"@);
    assert(restored =~= Seq::<char>::empty());
    let pieces = split_on(restored, "\n\n"@);
    assert(pieces =~= seq![Seq::<char>::empty()]);
    let trimmed = pieces.map_values(|p: Seq<char>| trim(p));
    assert(trimmed =~= seq![Seq::<char>::empty()]);
    assert(join(trimmed, "\n\n"@) =~= Seq::<char>::empty());
    assert(normalize_paragraphs(restored) =~= Seq::<char>::empty());
}

// ---------------------------------------------------------------------------
// Implementation
// ---------------------------------------------------------------------------

/// The cleaned form of a transcript, as `cleaned` describes it.
pub fn cleanup_transcript(text: &str) -> (r: String)
    ensures
        r@ == cleaned(text@),
{
    let raw = chars_of(text);
    let trimmed = trim_chars(&raw);
    let mut cleaned_chars: Vec<char> = Vec::new();
    cleaned_chars.push(' ');
    push_all(&mut cleaned_chars, &trimmed);
    cleaned_chars.push(' ');
    assert(cleaned_chars@ =~= seq![' '] + trim(text@) + seq![' ']);
    let ghost padded = cleaned_chars@;

    let mut k: usize = 0;
    while k < 11
        invariant
            k <= 11,
            cleaned_chars@ == apply_spoken(padded, k as nat),
        decreases 11 - k,
    {
        let (spoken, symbol) = spoken_pair(k);
        let needle = chars_of(spoken);
        let mut replacement: Vec<char> = Vec::new();
        replacement.push(' ');
        let symbol_chars = chars_of(symbol);
        push_all(&mut replacement, &symbol_chars);
        replacement.push(' ');
        assert(replacement@ =~= seq![' '] + spoken_symbols()[k as int] + seq![' ']);
        cleaned_chars = replace_phrase_case_insensitive(&cleaned_chars, &needle, &replacement);
        k = k + 1;
    }

    let break_chars = chars_of("\n\n");
    let marker_chars = chars_of("__PARAGRAPH_BREAK__");
    let spaced_marker = chars_of(" __PARAGRAPH_BREAK__ ");
    proof {
        reveal_strlit("\n\n");
        reveal_strlit("__PARAGRAPH_BREAK__");
        reveal_strlit(" __PARAGRAPH_BREAK__ ");
        reveal_strlit(" ");
        assert(spaced_marker@ =~= " "@ + paragraph_marker() + " "@);
    }
    cleaned_chars = replace_chars(&cleaned_chars, &break_chars, &spaced_marker);
    cleaned_chars = remove_fillers(&cleaned_chars);
    cleaned_chars = collapse_whitespace(&cleaned_chars);
    cleaned_chars = trim_space_before_punctuation(&cleaned_chars);
    cleaned_chars = collapse_punctuation_runs(&cleaned_chars);
    cleaned_chars = replace_chars(&cleaned_chars, &marker_chars, &break_chars);
    cleaned_chars = normalize_paragraph_spacing(&cleaned_chars);
    cleaned_chars = capitalize_first(&cleaned_chars);
    string_of(&cleaned_chars)
}

/// The `k`-th spoken phrase and its symbol.
fn spoken_pair(k: usize) -> (r: (&'static str, &'static str))
    requires
        k < 11,
    ensures
        r.0@ == spoken_phrases()[k as int],
        r.1@ == spoken_symbols()[k as int],
        r.0@.len() > 0,
{
    match k {
        0 => {
            proof {
                reveal_strlit("question mark");
            }
            ("question mark", "?")
        },
        1 => {
            proof {
                reveal_strlit("exclamation mark");
            }
            ("exclamation mark", "!")
        },
        2 => {
            proof {
                reveal_strlit("full stop");
            }
            ("full stop", ".")
        },
        3 => {
            proof {
                reveal_strlit("semicolon");
            }
            ("semicolon", ";")
        },
        4 => {
            proof {
                reveal_strlit("open bracket");
            }
            ("open bracket", "(")
        },
        5 => {
            proof {
                reveal_strlit("close bracket");
            }
            ("close bracket", ")")
        },
        6 => {
            proof {
                reveal_strlit("open paren");
            }
            ("open paren", "(")
        },
        7 => {
            proof {
                reveal_strlit("close paren");
            }
            ("close paren", ")")
        },
        8 => {
            proof {
                reveal_strlit("new paragraph");
            }
            ("new paragraph", "\n\n")
        },
        9 => {
            proof {
                reveal_strlit("period");
            }
            ("period", ".")
        },
        _ => {
            proof {
                reveal_strlit("comma");
            }
            ("comma", ",")
        },
    }
}

/// Whether the match at `start..end` of `input` stands alone as words.
fn is_word_boundary(input: &Vec<char>, start: usize, end: usize) -> (r: bool)
    requires
        start <= end <= input@.len(),
    ensures
        r == at_word_boundary(input@, start as int, end as int),
{
    let before_ok = start == 0 || !input[start - 1].is_alphanumeric();
    let after_ok = end >= input.len() || !input[end].is_alphanumeric();
    before_ok && after_ok
}

/// `input` with each stand-alone occurrence of `needle`, compared up to ASCII case,
/// replaced by `replacement`.
fn replace_phrase_case_insensitive(input: &Vec<char>, needle: &Vec<char>, replacement: &Vec<char>) -> (r: Vec<char>)
    requires
        needle@.len() > 0,
    ensures
        r@ == replace_phrase(input@, needle@, replacement@),
{
    let mut output: Vec<char> = Vec::new();
    let mut cursor: usize = 0;
    while cursor < input.len()
        invariant
            needle@.len() > 0,
            cursor <= input@.len(),
            output@ + replace_phrase_from(input@, needle@, replacement@, cursor as int)
                == replace_phrase(input@, needle@, replacement@),
        decreases input@.len() - cursor,
    {
        if occurs_at_exec(input, needle, cursor, true) {
            let end = cursor + needle.len();
            let ghost before = output@;
            if is_word_boundary(input, cursor, end) {
                push_all(&mut output, replacement);
            } else {
                push_range(&mut output, input, cursor, end);
            }
            proof {
                assert(output@ + replace_phrase_from(input@, needle@, replacement@, end as int)
                    =~= before + replace_phrase_from(input@, needle@, replacement@, cursor as int));
            }
            cursor = end;
        } else {
            proof {
                assert(output@.push(input@[cursor as int]) + replace_phrase_from(
                    input@,
                    needle@,
                    replacement@,
                    cursor + 1,
                ) =~= output@ + replace_phrase_from(input@, needle@, replacement@, cursor as int));
            }
            output.push(input[cursor]);
            cursor = cursor + 1;
        }
    }
    assert(replace_phrase_from(input@, needle@, replacement@, cursor as int) =~= Seq::<char>::empty());
    assert(output@ =~= output@ + Seq::<char>::empty());
    output
}

/// `token` without the characters at either end that are not alphanumeric.
fn strip_non_alphanumeric(token: &Vec<char>) -> (r: Vec<char>)
    ensures
        r@ == strip_end_non_alnum(strip_start_non_alnum(token@)),
{
    let mut i: usize = 0;
    assert(token@.skip(0) =~= token@);
    while i < token.len() && !token[i].is_alphanumeric()
        invariant
            i <= token@.len(),
            strip_start_non_alnum(token@) == strip_start_non_alnum(token@.skip(i as int)),
        decreases token@.len() - i,
    {
        proof {
            assert(token@.skip(i as int).drop_first() =~= token@.skip(i + 1));
        }
        i = i + 1;
    }
    let ghost t = token@.skip(i as int);
    assert(strip_start_non_alnum(t) == t);
    let mut j: usize = token.len();
    assert(t.take(j - i) =~= t);
    while j > i && !token[j - 1].is_alphanumeric()
        invariant
            i <= j <= token@.len(),
            t == token@.skip(i as int),
            strip_end_non_alnum(t) == strip_end_non_alnum(t.take(j - i)),
        decreases j,
    {
        proof {
            assert(t.take(j - i).drop_last() =~= t.take(j - i - 1));
            assert(t.take(j - i).last() == token@[j - 1]);
        }
        j = j - 1;
    }
    proof {
        let u = t.take(j - i);
        if u.len() > 0 {
            assert(u.last() == token@[j - 1]);
        }
        assert(strip_end_non_alnum(u) == u);
        assert(u =~= token@.subrange(i as int, j as int));
    }
    let mut r: Vec<char> = Vec::new();
    push_range(&mut r, token, i, j);
    assert(r@ =~= token@.subrange(i as int, j as int));
    r
}

/// Whether `token` is `first` followed by one or more `repeat`, up to ASCII case.
fn repeated_letter_word(token: &Vec<char>, first: char, repeat: char) -> (r: bool)
    ensures
        r == is_hesitation(token@, first, repeat),
{
    if token.len() < 2 || ascii_lowercase(token[0]) != first {
        return false;
    }
    let mut k: usize = 1;
    while k < token.len()
        invariant
            1 <= k <= token@.len(),
            forall|m: int| 1 <= m < k ==> ascii_lower(#[trigger] token@[m]) == repeat,
        decreases token@.len() - k,
    {
        if ascii_lowercase(token[k]) != repeat {
            return false;
        }
        k = k + 1;
    }
    true
}

/// Whether a token is a hesitation filler.
fn is_filler(token: &Vec<char>) -> (r: bool)
    ensures
        r == is_filler_token(token@),
{
    let core = strip_non_alphanumeric(token);
    if core.len() == 0 {
        return false;
    }
    repeated_letter_word(&core, 'u', 'm') || repeated_letter_word(&core, 'u', 'h')
        || repeated_letter_word(&core, 'e', 'r') || repeated_letter_word(&core, 'a', 'h')
}

/// The words of `input` that are not fillers, joined with single spaces.
fn remove_fillers(input: &Vec<char>) -> (r: Vec<char>)
    ensures
        r@ == without_fillers(input@),
{
    let tokens = split_words(input);
    let ghost all = views(tokens@);
    let ghost keep = |w: Seq<char>| !is_filler_token(w);
    let mut kept: Vec<Vec<char>> = Vec::new();
    let mut i: usize = 0;
    while i < tokens.len()
        invariant
            i <= tokens@.len(),
            all == views(tokens@),
            keep == (|w: Seq<char>| !is_filler_token(w)),
            views(kept@) == all.take(i as int).filter(keep),
        decreases tokens@.len() - i,
    {
        proof {
            reveal_with_fuel(Seq::<_>::filter, 1);
            assert(all.take(i + 1).drop_last() =~= all.take(i as int));
            assert(all.take(i + 1).last() == tokens@[i as int]@);
        }
        let ghost before = kept@;
        if !is_filler(&tokens[i]) {
            let token = copy_chars(&tokens[i]);
            kept.push(token);
            assert(views(kept@) =~= views(before).push(tokens@[i as int]@));
        }
        i = i + 1;
    }
    assert(all.take(tokens@.len() as int) =~= all);
    let space = chars_of(" ");
    join_chars(&kept, &space)
}

/// A copy of `v`.
fn copy_chars(v: &Vec<char>) -> (r: Vec<char>)
    ensures
        r@ == v@,
{
    let mut r: Vec<char> = Vec::new();
    push_all(&mut r, v);
    assert(r@ =~= v@);
    r
}

/// The words of `input` joined with single spaces.
fn collapse_whitespace(input: &Vec<char>) -> (r: Vec<char>)
    ensures
        r@ == collapse_ws(input@),
{
    let tokens = split_words(input);
    let space = chars_of(" ");
    join_chars(&tokens, &space)
}

/// `input` with spaces before sentence marks removed and other whitespace runs reduced to one
/// space, trimmed.
fn trim_space_before_punctuation(input: &Vec<char>) -> (r: Vec<char>)
    ensures
        r@ == trim(tighten(input@, false)),
{
    let mut output: Vec<char> = Vec::new();
    let mut pending_space = false;
    let mut i: usize = 0;
    assert(input@.skip(0) =~= input@);
    assert(output@ + tighten(input@, false) =~= tighten(input@, false));
    while i < input.len()
        invariant
            i <= input@.len(),
            output@ + tighten(input@.skip(i as int), pending_space) == tighten(input@, false),
        decreases input@.len() - i,
    {
        let ch = input[i];
        proof {
            assert(input@.skip(i as int).drop_first() =~= input@.skip(i + 1));
            assert(input@.skip(i as int)[0] == ch);
        }
        if ch.is_whitespace() {
            pending_space = true;
        } else {
            let ghost before = output@;
            let ghost was_pending = pending_space;
            if pending_space && !is_mark_char(ch) {
                output.push(' ');
            }
            output.push(ch);
            pending_space = false;
            proof {
                let head = if was_pending && !is_sentence_mark(ch) {
                    seq![' ', ch]
                } else {
                    seq![ch]
                };
                assert(output@ =~= before + head);
                assert(before + tighten(input@.skip(i as int), was_pending) =~= before + (head
                    + tighten(input@.skip(i + 1), false)));
            }
        }
        i = i + 1;
    }
    assert(input@.skip(i as int) =~= Seq::<char>::empty());
    assert(output@ =~= output@ + Seq::<char>::empty());
    proof {
        assert(input@.skip(0) =~= input@);
    }
    trim_chars(&output)
}

/// Whether `c` is one of the sentence marks.
fn is_mark_char(c: char) -> (r: bool)
    ensures
        r == is_sentence_mark(c),
{
    c == ',' || c == '.' || c == ';' || c == ':' || c == '!' || c == '?'
}

/// How strongly a sentence mark ends a clause.
fn rank_of(c: char) -> (r: u8)
    ensures
        r as int == mark_rank(c),
{
    if c == '?' || c == '!' {
        3
    } else if c == '.' {
        2
    } else {
        1
    }
}

/// `input` with every run of adjacent sentence marks reduced to its strongest mark.
fn collapse_punctuation_runs(input: &Vec<char>) -> (r: Vec<char>)
    ensures
        r@ == collapse_marks(input@, None),
{
    let mut output: Vec<char> = Vec::new();
    let mut held: Option<char> = None;
    let mut i: usize = 0;
    assert(input@.skip(0) =~= input@);
    assert(output@ + collapse_marks(input@, None) =~= collapse_marks(input@, None));
    while i < input.len()
        invariant
            i <= input@.len(),
            output@ + collapse_marks(input@.skip(i as int), held) == collapse_marks(input@, None),
        decreases input@.len() - i,
    {
        let ch = input[i];
        proof {
            assert(input@.skip(i as int).drop_first() =~= input@.skip(i + 1));
            assert(input@.skip(i as int)[0] == ch);
        }
        if is_mark_char(ch) {
            held = match held {
                Some(m) => if rank_of(ch) > rank_of(m) {
                    Some(ch)
                } else {
                    Some(m)
                },
                None => Some(ch),
            };
        } else {
            let ghost before = output@;
            let ghost was = held;
            if let Some(m) = held {
                output.push(m);
            }
            output.push(ch);
            held = None;
            proof {
                assert(output@ =~= before + held_mark(was) + seq![ch]);
                assert(before + collapse_marks(input@.skip(i as int), was) =~= output@
                    + collapse_marks(input@.skip(i + 1), None));
            }
        }
        i = i + 1;
    }
    let ghost before = output@;
    if let Some(m) = held {
        output.push(m);
    }
    assert(input@.skip(i as int) =~= Seq::<char>::empty());
    assert(output@ =~= before + held_mark(held));
    proof {
        assert(input@.skip(0) =~= input@);
    }
    output
}

/// Paragraphs of `input` trimmed and joined with a single blank-line break, the whole trimmed.
fn normalize_paragraph_spacing(input: &Vec<char>) -> (r: Vec<char>)
    ensures
        r@ == normalize_paragraphs(input@),
{
    let separator = chars_of("\n\n");
    proof {
        reveal_strlit("\n\n");
    }
    let parts = split_chars(input, &separator);
    let ghost pieces = views(parts@);
    let mut trimmed: Vec<Vec<char>> = Vec::new();
    let mut i: usize = 0;
    while i < parts.len()
        invariant
            i <= parts@.len(),
            pieces == views(parts@),
            views(trimmed@) =~= pieces.take(i as int).map_values(|p: Seq<char>| trim(p)),
        decreases parts@.len() - i,
    {
        let piece = trim_chars(&parts[i]);
        let ghost before = trimmed@;
        trimmed.push(piece);
        proof {
            assert(views(trimmed@) =~= views(before).push(trim(pieces[i as int])));
            assert(pieces.take(i + 1).map_values(|p: Seq<char>| trim(p)) =~= pieces.take(
                i as int,
            ).map_values(|p: Seq<char>| trim(p)).push(trim(pieces[i as int])));
        }
        i = i + 1;
    }
    assert(pieces.take(parts@.len() as int) =~= pieces);
    let joined = join_chars(&trimmed, &separator);
    trim_chars(&joined)
}

/// `input` with its first character upper-cased when it is alphabetic.
fn capitalize_first(input: &Vec<char>) -> (r: Vec<char>)
    ensures
        r@ == capitalize(input@),
{
    if input.len() > 0 && input[0].is_alphabetic() {
        let mut out = uppercase_chars(input[0]);
        push_range(&mut out, input, 1, input.len());
        assert(input@.subrange(1, input@.len() as int) =~= input@.drop_first());
        out
    } else {
        copy_chars(input)
    }
}

} // verus!
