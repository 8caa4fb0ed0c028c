//! Character classes and the sequence operations on text that the rest of the
//! library is specified with: trimming, splitting on whitespace or on a
//! separator, joining, and left-to-right replacement.
use vstd::prelude::*;

verus! {

// ---------------------------------------------------------------------------
// Character classes
// ---------------------------------------------------------------------------

/// Whether a non-ASCII `c` carries the Unicode `White_Space` property.
pub uninterp spec fn unicode_is_whitespace(c: char) -> bool;

/// Whether a non-ASCII `c` is alphabetic or numeric in the Unicode tables.
pub uninterp spec fn unicode_is_alphanumeric(c: char) -> bool;

/// Whether a non-ASCII `c` carries the Unicode `Alphabetic` property.
pub uninterp spec fn unicode_is_alphabetic(c: char) -> bool;

/// The characters that the Unicode upper-case mapping gives for a non-ASCII `c`.
pub uninterp spec fn unicode_uppercase(c: char) -> Seq<char>;

pub open spec fn is_ascii_char(c: char) -> bool {
    (c as u32) < 128
}

pub open spec fn is_ascii_digit(c: char) -> bool {
    48 <= c as u32 && c as u32 <= 57
}

pub open spec fn is_ascii_upper(c: char) -> bool {
    65 <= c as u32 && c as u32 <= 90
}

pub open spec fn is_ascii_lower(c: char) -> bool {
    97 <= c as u32 && c as u32 <= 122
}

/// What `char::is_whitespace` answers: among ASCII exactly tab, line feed, vertical tab,
/// form feed, carriage return and space; beyond ASCII the Unicode table decides.
pub open spec fn is_ws(c: char) -> bool {
    if is_ascii_char(c) {
        c as u32 == 32 || (9 <= c as u32 && c as u32 <= 13)
    } else {
        unicode_is_whitespace(c)
    }
}

/// What `char::is_alphanumeric` answers: among ASCII exactly the digits and the letters.
pub open spec fn is_alnum(c: char) -> bool {
    if is_ascii_char(c) {
        is_ascii_digit(c) || is_ascii_upper(c) || is_ascii_lower(c)
    } else {
        unicode_is_alphanumeric(c)
    }
}

/// What `char::is_alphabetic` answers: among ASCII exactly the letters.
pub open spec fn is_alpha(c: char) -> bool {
    if is_ascii_char(c) {
        is_ascii_upper(c) || is_ascii_lower(c)
    } else {
        unicode_is_alphabetic(c)
    }
}

/// The ASCII lower-case form of `c`: `A`..=`Z` become `a`..=`z`, every other character stays.
pub open spec fn ascii_lower(c: char) -> char {
    if is_ascii_upper(c) {
        ((c as u32) + 32) as char
    } else {
        c
    }
}

/// What `char::to_uppercase` yields: ASCII `a`..=`z` become `A`..=`Z`, other ASCII
/// characters stay; beyond ASCII the Unicode mapping decides, possibly with several characters.
pub open spec fn upper_seq(c: char) -> Seq<char> {
    if is_ascii_char(c) {
        if is_ascii_lower(c) {
            seq![((c as u32) - 32) as char]
        } else {
            seq![c]
        }
    } else {
        unicode_uppercase(c)
    }
}

/// `char::is_whitespace` reports the Unicode `White_Space` property; its ASCII members are
/// U+0009..=U+000D and U+0020.
pub assume_specification[ char::is_whitespace ](c: char) -> (r: bool)
    ensures
        r == is_ws(c),
        !is_ascii_char(c) ==> r == unicode_is_whitespace(c),
;

/// `char::is_alphanumeric` is `is_alphabetic() || is_numeric()`; on ASCII that is exactly
/// the digits and the letters.
pub assume_specification[ char::is_alphanumeric ](c: char) -> (r: bool)
    ensures
        r == is_alnum(c),
        !is_ascii_char(c) ==> r == unicode_is_alphanumeric(c),
;

/// `char::is_alphabetic` reports the Unicode `Alphabetic` property; on ASCII that is exactly
/// the letters.
pub assume_specification[ char::is_alphabetic ](c: char) -> (r: bool)
    ensures
        r == is_alpha(c),
        !is_ascii_char(c) ==> r == unicode_is_alphabetic(c),
;

/// Calls `char::to_uppercase` and collects what it yields. Its documentation maps ASCII
/// `a`..=`z` to `A`..=`Z` and leaves characters without an upper-case mapping as they are;
/// which characters a non-ASCII `c` maps to is left to the Unicode tables, named here.
#[verifier::external_body]
pub(crate) fn uppercase_chars(c: char) -> (r: Vec<char>)
    ensures
        r@ == upper_seq(c),
        !is_ascii_char(c) ==> r@ == unicode_uppercase(c),
{
    c.to_uppercase().collect()
}

/// `String::push` appends one character.
pub assume_specification[ String::push ](s: &mut String, ch: char)
    ensures
        final(s)@ == old(s)@.push(ch),
;

pub fn ascii_lowercase(c: char) -> (r: char)
    ensures
        r == ascii_lower(c),
{
    if 'A' <= c && c <= 'Z' {
        let code: u32 = c as u32;
        let lowered: u8 = (code + 32) as u8;
        lowered as char
    } else {
        c
    }
}

// ---------------------------------------------------------------------------
// Conversions between strings and character vectors
// ---------------------------------------------------------------------------

pub open spec fn views(v: Seq<Vec<char>>) -> Seq<Seq<char>> {
    Seq::new(v.len(), |i: int| v[i]@)
}

/// The characters of `s`, in order.
pub fn chars_of(s: &str) -> (r: Vec<char>)
    ensures
        r@ == s@,
{
    broadcast use vstd::string::group_string_axioms;

    let mut r: Vec<char> = Vec::new();
    for c in it: s.chars()
        invariant
            it.seq() == s@,
            r@ == it.seq().take(it.index() as int),
    {
        r.push(c);
    }
    r
}

/// The string made of the characters of `v`, in order.
pub fn string_of(v: &Vec<char>) -> (r: String)
    ensures
        r@ == v@,
{
    let mut r = String::new();
    let mut i: usize = 0;
    while i < v.len()
        invariant
            i <= v@.len(),
            r@ == v@.take(i as int),
        decreases v@.len() - i,
    {
        r.push(v[i]);
        i = i + 1;
        assert(v@.take(i as int) =~= v@.take((i - 1) as int).push(v@[i - 1]));
    }
    assert(v@.take(v@.len() as int) =~= v@);
    r
}

/// Appends `src[from..to]` to `out`.
pub fn push_range(out: &mut Vec<char>, src: &Vec<char>, from: usize, to: usize)
    requires
        from <= to <= src@.len(),
    ensures
        final(out)@ == old(out)@ + src@.subrange(from as int, to as int),
{
    let mut i = from;
    while i < to
        invariant
            from <= i <= to <= src@.len(),
            out@ == old(out)@ + src@.subrange(from as int, i as int),
        decreases to - i,
    {
        out.push(src[i]);
        i = i + 1;
        assert(src@.subrange(from as int, i as int) =~= src@.subrange(from as int, (i - 1) as int).push(
            src@[i - 1],
        ));
    }
}

/// Appends all of `src` to `out`.
pub fn push_all(out: &mut Vec<char>, src: &Vec<char>)
    ensures
        final(out)@ == old(out)@ + src@,
{
    push_range(out, src, 0, src.len());
    assert(src@.subrange(0, src@.len() as int) =~= src@);
}

// ---------------------------------------------------------------------------
// Trimming
// ---------------------------------------------------------------------------

/// `s` without its leading whitespace.
pub open spec fn trim_start(s: Seq<char>) -> Seq<char>
    decreases s.len(),
{
    if s.len() > 0 && is_ws(s[0]) {
        trim_start(s.drop_first())
    } else {
        s
    }
}

/// `s` without its trailing whitespace.
pub open spec fn trim_end(s: Seq<char>) -> Seq<char>
    decreases s.len(),
{
    if s.len() > 0 && is_ws(s.last()) {
        trim_end(s.drop_last())
    } else {
        s
    }
}

/// `s` without leading and trailing whitespace, as `str::trim` gives it.
pub open spec fn trim(s: Seq<char>) -> Seq<char> {
    trim_end(trim_start(s))
}

pub proof fn lemma_trim_start_skip(s: Seq<char>, i: int)
    requires
        0 <= i <= s.len(),
        forall|k: int| 0 <= k < i ==> is_ws(#[trigger] s[k]),
    ensures
        trim_start(s) == trim_start(s.skip(i)),
    decreases i,
{
    if i > 0 {
        assert(s.drop_first().skip(i - 1) =~= s.skip(i));
        assert forall|k: int| 0 <= k < i - 1 implies is_ws(#[trigger] s.drop_first()[k]) by {
            assert(s.drop_first()[k] == s[k + 1]);
        }
        lemma_trim_start_skip(s.drop_first(), i - 1);
    } else {
        assert(s.skip(0) =~= s);
    }
}

pub proof fn lemma_trim_end_take(s: Seq<char>, j: int)
    requires
        0 <= j <= s.len(),
        forall|k: int| j <= k < s.len() ==> is_ws(#[trigger] s[k]),
    ensures
        trim_end(s) == trim_end(s.take(j)),
    decreases s.len() - j,
{
    if j < s.len() {
        assert(s.drop_last().take(j) =~= s.take(j));
        assert forall|k: int| j <= k < s.len() - 1 implies is_ws(#[trigger] s.drop_last()[k]) by {
            assert(s.drop_last()[k] == s[k]);
        }
        lemma_trim_end_take(s.drop_last(), j);
    } else {
        assert(s.take(j) =~= s);
    }
}

/// `s` without leading and trailing whitespace.
pub fn trim_chars(s: &Vec<char>) -> (r: Vec<char>)
    ensures
        r@ == trim(s@),
{
    let mut i: usize = 0;
    while i < s.len() && s[i].is_whitespace()
        invariant
            i <= s@.len(),
            forall|k: int| 0 <= k < i ==> is_ws(#[trigger] s@[k]),
        decreases s@.len() - i,
    {
        i = i + 1;
    }
    proof {
        lemma_trim_start_skip(s@, i as int);
    }
    let ghost t = s@.skip(i as int);
    assert(trim_start(t) == t);
    let mut j: usize = s.len();
    while j > i && s[j - 1].is_whitespace()
        invariant
            i <= j <= s@.len(),
            t == s@.skip(i as int),
            forall|k: int| j <= k < s@.len() ==> is_ws(#[trigger] s@[k]),
        decreases j,
    {
        j = j - 1;
    }
    proof {
        assert forall|k: int| j - i <= k < t.len() implies is_ws(#[trigger] t[k]) by {
            assert(t[k] == s@[k + i]);
        }
        lemma_trim_end_take(t, j - i);
        let u = t.take(j - i);
        if u.len() > 0 {
            assert(u.last() == s@[j - 1]);
        }
        assert(trim_end(u) == u);
        assert(u =~= s@.subrange(i as int, j as int));
    }
    let mut r: Vec<char> = Vec::new();
    push_range(&mut r, s, i, j);
    assert(r@ =~= s@.subrange(i as int, j as int));
    r
}

// ---------------------------------------------------------------------------
// Matching and replacement
// ---------------------------------------------------------------------------

/// Whether `pat` occurs in `s` at position `i`; with `fold` the comparison ignores ASCII case.
pub open spec fn occurs_at(s: Seq<char>, pat: Seq<char>, i: int, fold: bool) -> bool {
    &&& 0 <= i
    &&& i + pat.len() <= s.len()
    &&& forall|k: int|
        0 <= k < pat.len() ==> if fold {
            ascii_lower(#[trigger] s[i + k]) == ascii_lower(pat[k])
        } else {
            s[i + k] == pat[k]
        }
}

/// Whether `pat` occurs in `s` at position `i`, comparing characters exactly or,
/// with `fold`, up to ASCII case.
pub fn occurs_at_exec(s: &Vec<char>, pat: &Vec<char>, i: usize, fold: bool) -> (r: bool)
    ensures
        r == occurs_at(s@, pat@, i as int, fold),
{
    if i > s.len() || pat.len() > s.len() - i {
        return false;
    }
    let n = s.len();
    let mut k: usize = 0;
    while k < pat.len()
        invariant
            n == s@.len(),
            i + pat@.len() <= s@.len(),
            k <= pat@.len(),
            forall|m: int|
                0 <= m < k ==> if fold {
                    ascii_lower(#[trigger] s@[i + m]) == ascii_lower(pat@[m])
                } else {
                    s@[i + m] == pat@[m]
                },
        decreases pat@.len() - k,
    {
        assert(i + k < s@.len());
        let a = s[i + k];
        let b = pat[k];
        let same = if fold {
            ascii_lowercase(a) == ascii_lowercase(b)
        } else {
            a == b
        };
        if !same {
            assert(!occurs_at(s@, pat@, i as int, fold)) by {
                if fold {
                    assert(ascii_lower(s@[i + k]) != ascii_lower(pat@[k as int]));
                } else {
                    assert(s@[i + k] != pat@[k as int]);
                }
            }
            return false;
        }
        k = k + 1;
    }
    true
}

/// `s[i..]` with every occurrence of `pat` replaced by `rep`, scanning left to right without
/// overlap, as `str::replace` does.
pub open spec fn replace_from(s: Seq<char>, pat: Seq<char>, rep: Seq<char>, i: int) -> Seq<char>
    decreases s.len() - i,
{
    if i < 0 || i >= s.len() {
        Seq::empty()
    } else if pat.len() > 0 && occurs_at(s, pat, i, false) {
        rep + replace_from(s, pat, rep, i + pat.len())
    } else {
        seq![s[i]] + replace_from(s, pat, rep, i + 1)
    }
}

/// `s` with every occurrence of `pat` replaced by `rep`.
pub open spec fn replace_all(s: Seq<char>, pat: Seq<char>, rep: Seq<char>) -> Seq<char> {
    replace_from(s, pat, rep, 0)
}

/// `s` with every occurrence of `pat` (which is not empty) replaced by `rep`.
pub fn replace_chars(s: &Vec<char>, pat: &Vec<char>, rep: &Vec<char>) -> (r: Vec<char>)
    requires
        pat@.len() > 0,
    ensures
        r@ == replace_all(s@, pat@, rep@),
{
    let mut out: Vec<char> = Vec::new();
    let mut i: usize = 0;
    while i < s.len()
        invariant
            pat@.len() > 0,
            i <= s@.len(),
            out@ + replace_from(s@, pat@, rep@, i as int) == replace_all(s@, pat@, rep@),
        decreases s@.len() - i,
    {
        if occurs_at_exec(s, pat, i, false) {
            proof {
                assert(out@ + rep@ + replace_from(s@, pat@, rep@, i + pat@.len()) =~= out@
                    + replace_from(s@, pat@, rep@, i as int));
            }
            push_all(&mut out, rep);
            i = i + pat.len();
        } else {
            proof {
                assert(out@.push(s@[i as int]) + replace_from(s@, pat@, rep@, i + 1) =~= out@
                    + replace_from(s@, pat@, rep@, i as int));
            }
            out.push(s[i]);
            i = i + 1;
        }
    }
    assert(replace_from(s@, pat@, rep@, i as int) =~= Seq::<char>::empty());
    assert(out@ =~= out@ + Seq::<char>::empty());
    out
}

// ---------------------------------------------------------------------------
// Splitting and joining
// ---------------------------------------------------------------------------

/// The pieces of `s[i..]` between occurrences of `pat`, the first of them continuing `cur`;
/// this is what `str::split` yields.
pub open spec fn split_from(s: Seq<char>, pat: Seq<char>, i: int, cur: Seq<char>) -> Seq<Seq<char>>
    decreases s.len() - i,
{
    if i < 0 || i >= s.len() {
        seq![cur]
    } else if pat.len() > 0 && occurs_at(s, pat, i, false) {
        seq![cur] + split_from(s, pat, i + pat.len(), Seq::empty())
    } else {
        split_from(s, pat, i + 1, cur.push(s[i]))
    }
}

/// The pieces of `s` between the occurrences of `pat`; there is always at least one.
pub open spec fn split_on(s: Seq<char>, pat: Seq<char>) -> Seq<Seq<char>> {
    split_from(s, pat, 0, Seq::empty())
}

/// The pieces of `s` between the occurrences of `pat` (which is not empty).
pub fn split_chars(s: &Vec<char>, pat: &Vec<char>) -> (r: Vec<Vec<char>>)
    requires
        pat@.len() > 0,
    ensures
        views(r@) == split_on(s@, pat@),
{
    let mut done: Vec<Vec<char>> = Vec::new();
    let mut cur: Vec<char> = Vec::new();
    let mut i: usize = 0;
    while i < s.len()
        invariant
            pat@.len() > 0,
            i <= s@.len(),
            views(done@) + split_from(s@, pat@, i as int, cur@) == split_on(s@, pat@),
        decreases s@.len() - i,
    {
        if occurs_at_exec(s, pat, i, false) {
            let ghost old_done = done@;
            let piece = cur;
            done.push(piece);
            cur = Vec::new();
            proof {
                assert(views(done@) =~= views(old_done).push(piece@));
                assert(views(done@) + split_from(s@, pat@, i + pat@.len(), Seq::empty()) =~= views(
                    old_done,
                ) + split_from(s@, pat@, i as int, piece@));
            }
            i = i + pat.len();
        } else {
            cur.push(s[i]);
            i = i + 1;
        }
    }
    let ghost old_done = done@;
    let last = cur;
    done.push(last);
    assert(views(done@) =~= views(old_done).push(last@));
    assert(views(done@) =~= views(old_done) + split_from(s@, pat@, i as int, last@));
    done
}

/// The whitespace-separated words of `s[i..]`, the first of them continuing `cur`;
/// this is what `str::split_whitespace` yields.
pub open spec fn words_from(s: Seq<char>, i: int, cur: Seq<char>) -> Seq<Seq<char>>
    decreases s.len() - i,
{
    if i < 0 || i >= s.len() {
        if cur.len() > 0 {
            seq![cur]
        } else {
            Seq::empty()
        }
    } else if is_ws(s[i]) {
        (if cur.len() > 0 {
            seq![cur]
        } else {
            Seq::empty()
        }) + words_from(s, i + 1, Seq::empty())
    } else {
        words_from(s, i + 1, cur.push(s[i]))
    }
}

/// The maximal runs of non-whitespace characters of `s`, in order.
pub open spec fn words(s: Seq<char>) -> Seq<Seq<char>> {
    words_from(s, 0, Seq::empty())
}

/// The whitespace-separated words of `s`.
pub fn split_words(s: &Vec<char>) -> (r: Vec<Vec<char>>)
    ensures
        views(r@) == words(s@),
{
    let mut done: Vec<Vec<char>> = Vec::new();
    let mut cur: Vec<char> = Vec::new();
    let mut i: usize = 0;
    while i < s.len()
        invariant
            i <= s@.len(),
            views(done@) + words_from(s@, i as int, cur@) == words(s@),
        decreases s@.len() - i,
    {
        if s[i].is_whitespace() {
            let ghost old_done = done@;
            let ghost old_cur = cur@;
            if cur.len() > 0 {
                let piece = cur;
                done.push(piece);
                cur = Vec::new();
                assert(views(done@) =~= views(old_done).push(old_cur));
            }
            assert(cur@ =~= Seq::<char>::empty());
            assert(views(done@) + words_from(s@, i + 1, Seq::empty()) =~= views(old_done)
                + words_from(s@, i as int, old_cur));
        } else {
            let ghost old_cur = cur@;
            cur.push(s[i]);
            assert(words_from(s@, i as int, old_cur) == words_from(s@, i + 1, cur@));
        }
        i = i + 1;
    }
    let ghost old_done = done@;
    if cur.len() > 0 {
        let last = cur;
        done.push(last);
        assert(views(done@) =~= views(old_done).push(last@));
        assert(views(done@) =~= views(old_done) + words_from(s@, i as int, last@));
    } else {
        assert(views(done@) =~= views(old_done) + words_from(s@, i as int, cur@));
    }
    done
}

/// The parts joined with `sep` between consecutive parts, as `join` on a slice gives it.
pub open spec fn join(parts: Seq<Seq<char>>, sep: Seq<char>) -> Seq<char>
    decreases parts.len(),
{
    if parts.len() == 0 {
        Seq::empty()
    } else if parts.len() == 1 {
        parts[0]
    } else {
        join(parts.drop_last(), sep) + sep + parts.last()
    }
}

/// The parts joined with `sep` between consecutive parts.
pub fn join_chars(parts: &Vec<Vec<char>>, sep: &Vec<char>) -> (r: Vec<char>)
    ensures
        r@ == join(views(parts@), sep@),
{
    let mut out: Vec<char> = Vec::new();
    let mut i: usize = 0;
    while i < parts.len()
        invariant
            i <= parts@.len(),
            out@ == join(views(parts@).take(i as int), sep@),
        decreases parts@.len() - i,
    {
        let ghost before = out@;
        if i > 0 {
            push_all(&mut out, sep);
        }
        push_all(&mut out, &parts[i]);
        i = i + 1;
        proof {
            let t = views(parts@).take(i as int);
            assert(t.drop_last() =~= views(parts@).take(i - 1));
            assert(t.last() == parts@[i - 1]@);
            if i == 1 {
                assert(out@ =~= parts@[0]@);
            }
        }
    }
    assert(views(parts@).take(parts@.len() as int) =~= views(parts@));
    out
}

// ---------------------------------------------------------------------------
// Prefixes, searching and lines
// ---------------------------------------------------------------------------

/// Whether `s` begins with `p`.
pub open spec fn starts_with(s: Seq<char>, p: Seq<char>) -> bool {
    p.len() <= s.len() && s.take(p.len() as int) == p
}

/// Whether `s` ends with `p`.
pub open spec fn ends_with(s: Seq<char>, p: Seq<char>) -> bool {
    p.len() <= s.len() && s.skip(s.len() - p.len()) == p
}

/// Whether `p` occurs somewhere in `s`.
pub open spec fn contains(s: Seq<char>, p: Seq<char>) -> bool {
    exists|i: int| occurs_at(s, p, i, false)
}

/// Whether `a` and `b` are equal up to ASCII case, as `eq_ignore_ascii_case` compares.
pub open spec fn eq_ignore_case(a: Seq<char>, b: Seq<char>) -> bool {
    a.len() == b.len() && forall|k: int| 0 <= k < a.len() ==> ascii_lower(#[trigger] a[k])
        == ascii_lower(b[k])
}

/// `s` in ASCII lower case.
pub open spec fn lower_all(s: Seq<char>) -> Seq<char> {
    s.map_values(|c: char| ascii_lower(c))
}

pub proof fn lemma_occurs_at_take(s: Seq<char>, p: Seq<char>)
    ensures
        starts_with(s, p) <==> occurs_at(s, p, 0, false),
{
    if p.len() <= s.len() {
        if occurs_at(s, p, 0, false) {
            assert forall|k: int| 0 <= k < p.len() implies s.take(p.len() as int)[k] == p[k] by {
                assert(s[0 + k] == p[k]);
            }
            assert(s.take(p.len() as int) =~= p);
        }
        if s.take(p.len() as int) == p {
            assert forall|k: int| 0 <= k < p.len() implies s[0 + k] == p[k] by {
                assert(s.take(p.len() as int)[k] == s[k]);
            }
        }
    }
}

/// Whether `s` begins with `p`.
pub fn starts_with_chars(s: &Vec<char>, p: &Vec<char>) -> (r: bool)
    ensures
        r == starts_with(s@, p@),
{
    proof {
        lemma_occurs_at_take(s@, p@);
    }
    occurs_at_exec(s, p, 0, false)
}

/// Whether `s` ends with `p`.
pub fn ends_with_chars(s: &Vec<char>, p: &Vec<char>) -> (r: bool)
    ensures
        r == ends_with(s@, p@),
{
    if p.len() > s.len() {
        return false;
    }
    let start = s.len() - p.len();
    let r = occurs_at_exec(s, p, start, false);
    proof {
        if r {
            assert forall|k: int| 0 <= k < p@.len() implies s@.skip(start as int)[k] == p@[k] by {
                assert(s@[start + k] == p@[k]);
            }
            assert(s@.skip(start as int) =~= p@);
        }
        if s@.skip(start as int) == p@ {
            assert forall|k: int| 0 <= k < p@.len() implies s@[start + k] == p@[k] by {
                assert(s@.skip(start as int)[k] == s@[start + k]);
            }
        }
    }
    r
}

/// Whether `p` occurs somewhere in `s`.
pub fn contains_chars(s: &Vec<char>, p: &Vec<char>) -> (r: bool)
    ensures
        r == contains(s@, p@),
{
    let mut i: usize = 0;
    while i < s.len()
        invariant
            i <= s@.len(),
            forall|j: int| 0 <= j < i ==> !occurs_at(s@, p@, j, false),
        decreases s@.len() - i,
    {
        if occurs_at_exec(s, p, i, false) {
            return true;
        }
        i = i + 1;
    }
    if occurs_at_exec(s, p, i, false) {
        return true;
    }
    assert forall|j: int| !occurs_at(s@, p@, j, false) by {
        if 0 <= j <= i {
        }
    }
    false
}

/// Whether `a` and `b` are equal up to ASCII case.
pub fn eq_ignore_case_chars(a: &Vec<char>, b: &Vec<char>) -> (r: bool)
    ensures
        r == eq_ignore_case(a@, b@),
{
    if a.len() != b.len() {
        return false;
    }
    let mut k: usize = 0;
    while k < a.len()
        invariant
            a@.len() == b@.len(),
            k <= a@.len(),
            forall|m: int| 0 <= m < k ==> ascii_lower(#[trigger] a@[m]) == ascii_lower(b@[m]),
        decreases a@.len() - k,
    {
        if ascii_lowercase(a[k]) != ascii_lowercase(b[k]) {
            return false;
        }
        k = k + 1;
    }
    true
}

/// `s` in ASCII lower case.
pub fn lower_chars(s: &Vec<char>) -> (r: Vec<char>)
    ensures
        r@ == lower_all(s@),
{
    let mut r: Vec<char> = Vec::new();
    let mut i: usize = 0;
    while i < s.len()
        invariant
            i <= s@.len(),
            r@ =~= lower_all(s@.take(i as int)),
        decreases s@.len() - i,
    {
        r.push(ascii_lowercase(s[i]));
        i = i + 1;
        assert(s@.take(i as int) =~= s@.take(i - 1).push(s@[i - 1]));
    }
    assert(s@.take(s@.len() as int) =~= s@);
    r
}

/// `s` without leading copies of `c`.
pub open spec fn strip_char_start(s: Seq<char>, c: char) -> Seq<char>
    decreases s.len(),
{
    if s.len() > 0 && s[0] == c {
        strip_char_start(s.drop_first(), c)
    } else {
        s
    }
}

/// `s` without trailing copies of `c`.
pub open spec fn strip_char_end(s: Seq<char>, c: char) -> Seq<char>
    decreases s.len(),
{
    if s.len() > 0 && s.last() == c {
        strip_char_end(s.drop_last(), c)
    } else {
        s
    }
}

/// `s` without the copies of `c` at either end, as `str::trim_matches(c)` gives it.
pub open spec fn strip_char(s: Seq<char>, c: char) -> Seq<char> {
    strip_char_end(strip_char_start(s, c), c)
}

/// `s` without the copies of `c` at either end.
pub fn strip_char_chars(s: &Vec<char>, c: char) -> (r: Vec<char>)
    ensures
        r@ == strip_char(s@, c),
{
    let mut i: usize = 0;
    assert(s@.skip(0) =~= s@);
    while i < s.len() && s[i] == c
        invariant
            i <= s@.len(),
            strip_char_start(s@, c) == strip_char_start(s@.skip(i as int), c),
        decreases s@.len() - i,
    {
        assert(s@.skip(i as int).drop_first() =~= s@.skip(i + 1));
        i = i + 1;
    }
    let ghost t = s@.skip(i as int);
    assert(strip_char_start(t, c) == t);
    let mut j: usize = s.len();
    assert(t.take(j - i) =~= t);
    while j > i && s[j - 1] == c
        invariant
            i <= j <= s@.len(),
            t == s@.skip(i as int),
            strip_char_end(t, c) == strip_char_end(t.take(j - i), c),
        decreases j,
    {
        assert(t.take(j - i).drop_last() =~= t.take(j - i - 1));
        assert(t.take(j - i).last() == s@[j - 1]);
        j = j - 1;
    }
    proof {
        let u = t.take(j - i);
        if u.len() > 0 {
            assert(u.last() == s@[j - 1]);
        }
        assert(strip_char_end(u, c) == u);
        assert(u =~= s@.subrange(i as int, j as int));
    }
    let mut r: Vec<char> = Vec::new();
    push_range(&mut r, s, i, j);
    assert(r@ =~= s@.subrange(i as int, j as int));
    r
}

/// The position of the first `c` in `s` at or after `i`.
pub open spec fn index_of_from(s: Seq<char>, c: char, i: int) -> Option<int>
    decreases s.len() - i,
{
    if i < 0 || i >= s.len() {
        None
    } else if s[i] == c {
        Some(i)
    } else {
        index_of_from(s, c, i + 1)
    }
}

/// The position of the first `c` in `s`.
pub open spec fn index_of(s: Seq<char>, c: char) -> Option<int> {
    index_of_from(s, c, 0)
}

pub proof fn lemma_index_of_from(s: Seq<char>, c: char, i: int)
    requires
        0 <= i,
    ensures
        match index_of_from(s, c, i) {
            Some(j) => i <= j < s.len() && s[j] == c && forall|k: int| i <= k < j ==> s[k] != c,
            None => forall|k: int| i <= k < s.len() ==> s[k] != c,
        },
    decreases s.len() - i,
{
    if i < s.len() && s[i] != c {
        lemma_index_of_from(s, c, i + 1);
    }
}

/// The position of the first `c` in `s`.
pub fn index_of_char(s: &Vec<char>, c: char) -> (r: Option<usize>)
    ensures
        match index_of(s@, c) {
            Some(j) => r == Some(j as usize) && 0 <= j < s@.len(),
            None => r is None,
        },
{
    let mut i: usize = 0;
    proof {
        lemma_index_of_from(s@, c, 0);
    }
    while i < s.len()
        invariant
            i <= s@.len(),
            index_of(s@, c) == index_of_from(s@, c, i as int),
        decreases s@.len() - i,
    {
        if s[i] == c {
            return Some(i);
        }
        i = i + 1;
    }
    None
}

/// `line` without one trailing carriage return.
pub open spec fn strip_cr(line: Seq<char>) -> Seq<char> {
    if line.len() > 0 && line.last() == '\r' {
        line.drop_last()
    } else {
        line
    }
}

/// The lines of `s`, as `str::lines` yields them: the pieces between line feeds, each
/// ended by a line feed losing one carriage return before it, and without an empty last piece.
pub open spec fn lines(s: Seq<char>) -> Seq<Seq<char>> {
    let p = split_on(s, seq!['\n']);
    let n = p.len() - 1;
    Seq::new(n as nat, |i: int| strip_cr(p[i])) + (if p[n].len() > 0 {
        seq![p[n]]
    } else {
        Seq::empty()
    })
}

pub proof fn lemma_split_nonempty(s: Seq<char>, pat: Seq<char>, i: int, cur: Seq<char>)
    ensures
        split_from(s, pat, i, cur).len() >= 1,
    decreases s.len() - i,
{
    if i < 0 || i >= s.len() {
    } else if pat.len() > 0 && occurs_at(s, pat, i, false) {
        lemma_split_nonempty(s, pat, i + pat.len(), Seq::empty());
    } else {
        lemma_split_nonempty(s, pat, i + 1, cur.push(s[i]));
    }
}

/// The lines of `s`.
pub fn split_lines(s: &Vec<char>) -> (r: Vec<Vec<char>>)
    ensures
        views(r@) == lines(s@),
{
    let mut nl: Vec<char> = Vec::new();
    nl.push('\n');
    let pieces = split_chars(s, &nl);
    proof {
        lemma_split_nonempty(s@, nl@, 0, Seq::empty());
    }
    let ghost p = views(pieces@);
    let n = pieces.len() - 1;
    let mut out: Vec<Vec<char>> = Vec::new();
    let mut i: usize = 0;
    while i < n
        invariant
            n == pieces@.len() - 1,
            p == views(pieces@),
            i <= n,
            views(out@) =~= Seq::new(i as nat, |k: int| strip_cr(p[k])),
        decreases n - i,
    {
        let piece = &pieces[i];
        let mut line: Vec<char> = Vec::new();
        if piece.len() > 0 && piece[piece.len() - 1] == '\r' {
            push_range(&mut line, piece, 0, piece.len() - 1);
            assert(line@ =~= p[i as int].drop_last());
        } else {
            push_all(&mut line, piece);
            assert(line@ =~= p[i as int]);
        }
        let ghost before = out@;
        out.push(line);
        assert(views(out@) =~= views(before).push(strip_cr(p[i as int])));
        i = i + 1;
    }
    if pieces[n].len() > 0 {
        let mut last: Vec<char> = Vec::new();
        push_all(&mut last, &pieces[n]);
        let ghost before = out@;
        out.push(last);
        assert(views(out@) =~= views(before).push(p[n as int]));
        assert(views(out@) =~= lines(s@));
    } else {
        assert(views(out@) =~= lines(s@));
    }
    out
}

/// The string `a` followed by `b`.
pub fn str_concat(a: &str, b: &str) -> (r: String)
    ensures
        r@ == a@ + b@,
{
    let mut v = chars_of(a);
    let w = chars_of(b);
    push_all(&mut v, &w);
    string_of(&v)
}

/// `a`, then `b`, then `c`.
pub fn str_concat3(a: &str, b: &str, c: &str) -> (r: String)
    ensures
        r@ == a@ + b@ + c@,
{
    let mut v = chars_of(a);
    let w = chars_of(b);
    let x = chars_of(c);
    push_all(&mut v, &w);
    push_all(&mut v, &x);
    string_of(&v)
}

/// A copy of `s`.
pub fn copy_string(s: &str) -> (r: String)
    ensures
        r@ == s@,
{
    let v = chars_of(s);
    string_of(&v)
}

/// The position of the first occurrence of `pat` in `s` at or after `i`.
pub open spec fn find_from(s: Seq<char>, pat: Seq<char>, i: int) -> Option<int>
    decreases s.len() + 1 - i,
{
    if i < 0 || i > s.len() {
        None
    } else if occurs_at(s, pat, i, false) {
        Some(i)
    } else {
        find_from(s, pat, i + 1)
    }
}

/// The position of the first occurrence of `pat` in `s`, as `str::find` gives it.
pub open spec fn find(s: Seq<char>, pat: Seq<char>) -> Option<int> {
    find_from(s, pat, 0)
}

pub proof fn lemma_find_from(s: Seq<char>, pat: Seq<char>, i: int)
    requires
        0 <= i,
    ensures
        match find_from(s, pat, i) {
            Some(j) => i <= j && occurs_at(s, pat, j, false) && forall|k: int|
                i <= k < j ==> !occurs_at(s, pat, k, false),
            None => forall|k: int| i <= k ==> !occurs_at(s, pat, k, false),
        },
    decreases s.len() + 1 - i,
{
    if i <= s.len() && !occurs_at(s, pat, i, false) {
        lemma_find_from(s, pat, i + 1);
    }
}

/// The position of the first occurrence of `pat` in `s`.
pub fn find_chars(s: &Vec<char>, pat: &Vec<char>) -> (r: Option<usize>)
    ensures
        match find(s@, pat@) {
            Some(j) => r == Some(j as usize) && 0 <= j && j + pat@.len() <= s@.len(),
            None => r is None,
        },
{
    let mut i: usize = 0;
    proof {
        lemma_find_from(s@, pat@, 0);
    }
    while i < s.len()
        invariant
            i <= s@.len(),
            find(s@, pat@) == find_from(s@, pat@, i as int),
        decreases s@.len() - i,
    {
        if occurs_at_exec(s, pat, i, false) {
            return Some(i);
        }
        i = i + 1;
    }
    if occurs_at_exec(s, pat, i, false) {
        return Some(i);
    }
    assert(find_from(s@, pat@, i + 1) == None::<int>);
    None
}

/// `s[from..]`.
pub fn tail_chars(s: &Vec<char>, from: usize) -> (r: Vec<char>)
    requires
        from <= s@.len(),
    ensures
        r@ == s@.skip(from as int),
{
    let mut r: Vec<char> = Vec::new();
    push_range(&mut r, s, from, s.len());
    assert(r@ =~= s@.skip(from as int));
    r
}

/// `s[..to]`.
pub fn head_chars(s: &Vec<char>, to: usize) -> (r: Vec<char>)
    requires
        to <= s@.len(),
    ensures
        r@ == s@.take(to as int),
{
    let mut r: Vec<char> = Vec::new();
    push_range(&mut r, s, 0, to);
    assert(r@ =~= s@.take(to as int));
    r
}

/// Whether `a` and `b` hold the same characters.
pub fn chars_eq(a: &Vec<char>, b: &Vec<char>) -> (r: bool)
    ensures
        r == (a@ == b@),
{
    if a.len() != b.len() {
        return false;
    }
    let mut k: usize = 0;
    while k < a.len()
        invariant
            a@.len() == b@.len(),
            k <= a@.len(),
            forall|m: int| 0 <= m < k ==> a@[m] == b@[m],
        decreases a@.len() - k,
    {
        if a[k] != b[k] {
            return false;
        }
        k = k + 1;
    }
    assert(a@ =~= b@);
    true
}

/// Whether `a` and `b` hold the same characters.
pub fn str_eq(a: &str, b: &str) -> (r: bool)
    ensures
        r == (a@ == b@),
{
    let x = chars_of(a);
    let y = chars_of(b);
    chars_eq(&x, &y)
}


/// The character of the decimal digit `d`.
pub open spec fn digit_char(d: nat) -> char {
    if d == 0 {
        '0'
    } else if d == 1 {
        '1'
    } else if d == 2 {
        '2'
    } else if d == 3 {
        '3'
    } else if d == 4 {
        '4'
    } else if d == 5 {
        '5'
    } else if d == 6 {
        '6'
    } else if d == 7 {
        '7'
    } else if d == 8 {
        '8'
    } else {
        '9'
    }
}

/// `n` written in decimal, without leading zeros.
pub open spec fn decimal(n: nat) -> Seq<char>
    decreases n,
{
    if n < 10 {
        seq![digit_char(n)]
    } else {
        decimal(n / 10).push(digit_char(n % 10))
    }
}

fn digit_of(d: u64) -> (c: char)
    requires
        d < 10,
    ensures
        c == digit_char(d as nat),
{
    if d == 0 {
        '0'
    } else if d == 1 {
        '1'
    } else if d == 2 {
        '2'
    } else if d == 3 {
        '3'
    } else if d == 4 {
        '4'
    } else if d == 5 {
        '5'
    } else if d == 6 {
        '6'
    } else if d == 7 {
        '7'
    } else if d == 8 {
        '8'
    } else {
        '9'
    }
}

fn decimal_chars(n: u64) -> (r: Vec<char>)
    ensures
        r@ == decimal(n as nat),
    decreases n,
{
    if n < 10 {
        let mut v: Vec<char> = Vec::new();
        v.push(digit_of(n));
        v
    } else {
        let mut v = decimal_chars(n / 10);
        v.push(digit_of(n % 10));
        v
    }
}

/// `n` written in decimal.
pub fn decimal_string(n: u64) -> (r: String)
    ensures
        r@ == decimal(n as nat),
{
    let v = decimal_chars(n);
    string_of(&v)
}

/// What `format!("{:?}", s)` writes for the string `s`: `s` in double quotes, with quotes,
/// backslashes and the characters that `char::escape_debug` escapes written as escapes.
pub uninterp spec fn debug_text(s: Seq<char>) -> Seq<char>;

/// Calls `<str as Debug>::fmt` through `format!`. The escaping follows std's Unicode tables,
/// so the result is named rather than stated: it is `debug_text` of the argument.
#[verifier::external_body]
pub(crate) fn debug_quoted(s: &str) -> (r: String)
    ensures
        r@ == debug_text(s@),
{
    format!("{:?}", s)
}

} // verus!
