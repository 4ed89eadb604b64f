//! Turning an untrusted session label into a safe file-name token.

use vstd::prelude::*;

verus! {

/// What `char::is_alphanumeric` answers for a character (Unicode
/// `Alphabetic` or `Numeric`).
pub uninterp spec fn alphanumeric(c: char) -> bool;

/// Relies on `char::is_alphanumeric`: whether a character is alphabetic or
/// numeric in the Unicode sense.
pub assume_specification[ char::is_alphanumeric ](c: char) -> (r: bool)
    ensures
        r == alphanumeric(c),
;

/// Relies on `String::push`: appends one character at the end.
pub assume_specification[ String::push ](s: &mut String, ch: char)
    ensures
        final(s)@ == old(s)@.push(ch),
;

/// Longest name produced, in characters.
pub const MAX_NAME_CHARS: usize = 255;

pub open spec fn is_path_separator(c: char) -> bool {
    c == '/' || c == '\\'
}

pub open spec fn is_ascii_alnum(c: char) -> bool {
    ('a' <= c && c <= 'z') || ('A' <= c && c <= 'Z') || ('0' <= c && c <= '9')
}

/// A character that is kept as it is, given whether it is alphanumeric.
pub open spec fn is_kept(c: char, alnum: bool) -> bool {
    alnum || is_ascii_alnum(c) || c == '_' || c == '-' || c == '.'
}

/// Separators become `_`, kept characters stay, anything else becomes `.`.
pub open spec fn replacement(c: char, alnum: bool) -> char {
    if is_path_separator(c) {
        '_'
    } else if is_kept(c, alnum) {
        c
    } else {
        '.'
    }
}

pub open spec fn replaced(s: Seq<char>, alnum: Seq<bool>) -> Seq<char> {
    Seq::new(s.len(), |i: int| replacement(s[i], alnum[i]))
}

/// Drops every `.` that directly follows a `.` already kept.
pub open spec fn collapse_dots(s: Seq<char>) -> Seq<char>
    decreases s.len(),
{
    if s.len() == 0 {
        s
    } else {
        let prev = collapse_dots(s.drop_last());
        if s.last() == '.' && prev.len() > 0 && prev.last() == '.' {
            prev
        } else {
            prev.push(s.last())
        }
    }
}

pub open spec fn is_trailing_trimmed(c: char) -> bool {
    c == '.' || c == '_'
}

/// Removes every trailing `.` and `_`.
pub open spec fn trim_trailing(s: Seq<char>) -> Seq<char>
    decreases s.len(),
{
    if s.len() > 0 && is_trailing_trimmed(s.last()) {
        trim_trailing(s.drop_last())
    } else {
        s
    }
}

/// The name used when nothing is left of the label.
pub open spec fn fallback_name() -> Seq<char> {
    seq!['c', 'h', 'u', 'n', 'k']
}

pub open spec fn truncated(s: Seq<char>) -> Seq<char> {
    if s.len() > MAX_NAME_CHARS {
        s.take(MAX_NAME_CHARS as int)
    } else {
        s
    }
}

/// The sanitized form of `s`, where `alnum[i]` tells whether `s[i]` is
/// alphanumeric.
pub open spec fn sanitized_with(s: Seq<char>, alnum: Seq<bool>) -> Seq<char> {
    let t = trim_trailing(collapse_dots(replaced(s, alnum)));
    truncated(if t.len() == 0 { fallback_name() } else { t })
}

pub open spec fn alnum_flags(s: Seq<char>) -> Seq<bool> {
    Seq::new(s.len(), |i: int| alphanumeric(s[i]))
}

/// The sanitized form of `s`.
pub open spec fn sanitized(s: Seq<char>) -> Seq<char> {
    sanitized_with(s, alnum_flags(s))
}

/// Sanitizes `input`, given for each of its characters whether it is
/// alphanumeric.
pub fn sanitize_filename_with(input: &str, alnum: &Vec<bool>) -> (r: String)
    requires
        alnum@.len() == input@.len(),
    ensures
        r@ == sanitized_with(input@, alnum@),
{
    let ghost m = replaced(input@, alnum@);
    let mut out: Vec<char> = Vec::new();
    let mut i: usize = 0;
    for c in it: input.chars()
        invariant
            it.seq() == input@,
            i == it.index(),
            alnum@.len() == input@.len(),
            m == replaced(input@, alnum@),
            out@ == collapse_dots(m.take(i as int)),
    {
        assert(i < alnum.len());
        let flag = alnum[i];
        let p = if c == '/' || c == '\\' {
            '_'
        } else if flag || ('a' <= c && c <= 'z') || ('A' <= c && c <= 'Z') || ('0' <= c
            && c <= '9') || c == '_' || c == '-' || c == '.' {
            c
        } else {
            '.'
        };
        assert(m.take(i + 1).drop_last() =~= m.take(i as int));
        if !(p == '.' && out.len() > 0 && out[out.len() - 1] == '.') {
            out.push(p);
        }
        i = i + 1;
    }
    assert(m.take(i as int) =~= m);
    let ghost collapsed = out@;
    while out.len() > 0 && (out[out.len() - 1] == '.' || out[out.len() - 1] == '_')
        invariant
            trim_trailing(out@) == trim_trailing(collapsed),
        decreases out.len(),
    {
        out.pop();
    }
    if out.len() == 0 {
        out = vec!['c', 'h', 'u', 'n', 'k'];
        assert(out@ =~= fallback_name());
    }
    if out.len() > MAX_NAME_CHARS {
        out.truncate(MAX_NAME_CHARS);
    }
    let mut r = String::new();
    for k in 0..out.len()
        invariant
            r@ == out@.take(k as int),
    {
        assert(out@.take(k + 1) =~= out@.take(k as int).push(out@[k as int]));
        r.push(out[k]);
    }
    assert(out@.take(out@.len() as int) =~= out@);
    r
}

/// Maps an arbitrary label to a safe file-name token: alphanumerics, `_`,
/// `-` and `.` stay, `/` and `\` become `_`, anything else becomes `.`;
/// runs of `.` collapse to one, trailing `.` and `_` are removed, an empty
/// result becomes `chunk`, and the result is cut to 255 characters.
pub fn sanitize_filename(input: &str) -> (r: String)
    ensures
        r@ == sanitized(input@),
{
    let mut alnum: Vec<bool> = Vec::new();
    for c in it: input.chars()
        invariant
            it.seq() == input@,
            alnum@ == alnum_flags(input@).take(it.index() as int),
    {
        alnum.push(c.is_alphanumeric());
        assert(alnum@ =~= alnum_flags(input@).take(it.index() + 1));
    }
    assert(alnum@ =~= alnum_flags(input@));
    sanitize_filename_with(input, &alnum)
}

/// No two neighbouring characters of `s` are both `.`.
pub open spec fn no_double_dots(s: Seq<char>) -> bool {
    forall|i: int| 0 <= i && i + 1 < s.len() ==> !(#[trigger] s[i] == '.' && s[i + 1] == '.')
}

/// A character that sanitizing leaves as it is.
pub open spec fn is_clean(c: char) -> bool {
    !is_path_separator(c) && is_kept(c, alphanumeric(c))
}

proof fn lemma_collapse_no_double(s: Seq<char>)
    ensures
        no_double_dots(collapse_dots(s)),
    decreases s.len(),
{
    if s.len() > 0 {
        lemma_collapse_no_double(s.drop_last());
    }
}

proof fn lemma_collapse_keeps(s: Seq<char>, p: spec_fn(char) -> bool)
    requires
        forall|i: int| 0 <= i < s.len() ==> p(#[trigger] s[i]),
    ensures
        collapse_dots(s).len() <= s.len(),
        forall|j: int| 0 <= j < collapse_dots(s).len() ==> p(#[trigger] collapse_dots(s)[j]),
    decreases s.len(),
{
    if s.len() > 0 {
        let prev = s.drop_last();
        assert forall|i: int| 0 <= i < prev.len() implies p(#[trigger] prev[i]) by {
            assert(prev[i] == s[i]);
        }
        lemma_collapse_keeps(prev, p);
        assert(p(s[s.len() - 1]));
    }
}

proof fn lemma_collapse_identity(s: Seq<char>)
    requires
        no_double_dots(s),
    ensures
        collapse_dots(s) == s,
    decreases s.len(),
{
    if s.len() > 0 {
        let prev = s.drop_last();
        assert(no_double_dots(prev)) by {
            assert forall|i: int| 0 <= i && i + 1 < prev.len() implies !(#[trigger] prev[i]
                == '.' && prev[i + 1] == '.') by {
                assert(prev[i] == s[i] && prev[i + 1] == s[i + 1]);
            }
        }
        lemma_collapse_identity(prev);
        if s.len() > 1 {
            assert(!(s[s.len() - 2] == '.' && s[s.len() - 1] == '.'));
        }
        assert(prev.push(s.last()) =~= s);
    }
}

proof fn lemma_trim_prefix(s: Seq<char>)
    ensures
        trim_trailing(s).len() <= s.len(),
        trim_trailing(s) == s.take(trim_trailing(s).len() as int),
        trim_trailing(s).len() > 0 ==> !is_trailing_trimmed(trim_trailing(s).last()),
    decreases s.len(),
{
    if s.len() > 0 && is_trailing_trimmed(s.last()) {
        lemma_trim_prefix(s.drop_last());
        assert(s.drop_last().take(trim_trailing(s).len() as int) =~= s.take(
            trim_trailing(s).len() as int,
        ));
    } else {
        assert(s.take(s.len() as int) =~= s);
    }
}

proof fn lemma_sanitized_parts(s: Seq<char>, alnum: Seq<bool>)
    requires
        alnum.len() == s.len(),
    ensures
        ({
            let t = trim_trailing(collapse_dots(replaced(s, alnum)));
            &&& t.len() <= collapse_dots(replaced(s, alnum)).len()
            &&& t == collapse_dots(replaced(s, alnum)).take(t.len() as int)
            &&& t.len() > 0 ==> !is_trailing_trimmed(t.last())
            &&& no_double_dots(t)
            &&& forall|j: int| 0 <= j < t.len() ==> !is_path_separator(#[trigger] t[j])
        }),
{
    let m = replaced(s, alnum);
    let c = collapse_dots(m);
    let t = trim_trailing(c);
    let p = |x: char| !is_path_separator(x);
    assert forall|i: int| 0 <= i < m.len() implies p(#[trigger] m[i]) by {}
    lemma_collapse_keeps(m, p);
    lemma_collapse_no_double(m);
    lemma_trim_prefix(c);
    assert forall|j: int| 0 <= j < t.len() implies !is_path_separator(#[trigger] t[j]) by {
        assert(t[j] == c[j]);
        assert(p(c[j]));
    }
    assert forall|i: int| 0 <= i && i + 1 < t.len() implies !(#[trigger] t[i] == '.' && t[i + 1]
        == '.') by {
        assert(t[i] == c[i] && t[i + 1] == c[i + 1]);
    }
}

/// The sanitized form of any label is never empty, holds at most 255
/// characters, holds no path separator and no two neighbouring dots.
pub proof fn lemma_sanitized_is_safe(s: Seq<char>)
    ensures
        sanitized(s).len() > 0,
        sanitized(s).len() <= MAX_NAME_CHARS,
        forall|j: int| 0 <= j < sanitized(s).len() ==> !is_path_separator(#[trigger] sanitized(s)[j]),
        no_double_dots(sanitized(s)),
{
    let alnum = alnum_flags(s);
    lemma_sanitized_parts(s, alnum);
    let t = trim_trailing(collapse_dots(replaced(s, alnum)));
    let u = if t.len() == 0 { fallback_name() } else { t };
    let r = sanitized(s);
    assert(r == truncated(u));
    assert forall|j: int| 0 <= j < r.len() implies !is_path_separator(#[trigger] r[j]) by {
        assert(r[j] == u[j]);
    }
    assert forall|i: int| 0 <= i && i + 1 < r.len() implies !(#[trigger] r[i] == '.' && r[i + 1]
        == '.') by {
        assert(r[i] == u[i] && r[i + 1] == u[i + 1]);
    }
}

/// Every character of a sanitized label is one that sanitizing keeps.
proof fn lemma_sanitized_clean(s: Seq<char>)
    ensures
        forall|j: int| 0 <= j < sanitized(s).len() ==> is_clean(#[trigger] sanitized(s)[j]),
{
    let alnum = alnum_flags(s);
    let m = replaced(s, alnum);
    let c = collapse_dots(m);
    let t = trim_trailing(c);
    let u = if t.len() == 0 { fallback_name() } else { t };
    let r = sanitized(s);
    let p = |x: char| is_clean(x);
    assert forall|i: int| 0 <= i < m.len() implies p(#[trigger] m[i]) by {
        assert(m[i] == replacement(s[i], alphanumeric(s[i])));
    }
    lemma_collapse_keeps(m, p);
    lemma_trim_prefix(c);
    assert forall|j: int| 0 <= j < r.len() implies is_clean(#[trigger] r[j]) by {
        assert(r[j] == u[j]);
        if t.len() != 0 {
            assert(t[j] == c[j]);
            assert(p(c[j]));
        }
    }
}

/// Sanitizing a sanitized label changes nothing, except where cutting at 255
/// characters left a trailing `.` or `_`, which a second pass removes.
pub proof fn lemma_sanitize_idempotent(s: Seq<char>)
    requires
        !is_trailing_trimmed(sanitized(s).last()),
    ensures
        sanitized(sanitized(s)) == sanitized(s),
{
    let r = sanitized(s);
    lemma_sanitized_is_safe(s);
    lemma_sanitized_clean(s);
    let m = replaced(r, alnum_flags(r));
    assert(m =~= r) by {
        assert forall|i: int| 0 <= i < r.len() implies m[i] == r[i] by {
            assert(is_clean(r[i]));
        }
    }
    lemma_collapse_identity(r);
    assert(trim_trailing(r) == r);
}

} // verus!
