//! Turning a free-form title into a base id that is safe as a file stem.
use vstd::prelude::*;

use crate::text::{chars_of, string_from_chars};

verus! {

/// The most characters a base id may have.
pub const MAX_ID_CHARS: usize = 100;

/// Characters that may not stand in a file stem: each becomes `_`.
pub open spec fn is_reserved_char(c: char) -> bool {
    c == '/' || c == '\\' || c == ':' || c == '*' || c == '?' || c == '"' || c == '<' || c == '>'
        || c == '|' || c == '\0' || c == ' '
}

pub open spec fn replace_reserved_char(c: char) -> char {
    if is_reserved_char(c) {
        '_'
    } else {
        c
    }
}

/// Each reserved character replaced by `_`.
pub open spec fn replace_reserved(s: Seq<char>) -> Seq<char> {
    s.map_values(|c: char| replace_reserved_char(c))
}

/// `s` without its leading `_` characters.
pub open spec fn trim_start_underscores(s: Seq<char>) -> Seq<char>
    decreases s.len(),
{
    if s.len() > 0 && s[0] == '_' {
        trim_start_underscores(s.drop_first())
    } else {
        s
    }
}

/// `s` without its trailing `_` characters.
pub open spec fn trim_end_underscores(s: Seq<char>) -> Seq<char>
    decreases s.len(),
{
    if s.len() > 0 && s.last() == '_' {
        trim_end_underscores(s.drop_last())
    } else {
        s
    }
}

/// `s` with each run of `_` shortened to one `_`.
pub open spec fn collapse_underscores(s: Seq<char>) -> Seq<char>
    decreases s.len(),
{
    if s.len() == 0 {
        s
    } else if s.last() == '_' && s.len() >= 2 && s[s.len() - 2] == '_' {
        collapse_underscores(s.drop_last())
    } else {
        collapse_underscores(s.drop_last()).push(s.last())
    }
}

/// The base id of a title: reserved characters replaced, `_` trimmed at both
/// ends and collapsed, `"Untitled"` for an empty result, and a result longer
/// than the limit cut to the limit with the `_` left at the cut trimmed.
pub open spec fn sanitized(title: Seq<char>) -> Seq<char> {
    let c = collapse_underscores(trim_end_underscores(trim_start_underscores(replace_reserved(title))));
    if c.len() == 0 {
        "Untitled"@
    } else if c.len() > MAX_ID_CHARS {
        trim_end_underscores(c.subrange(0, MAX_ID_CHARS as int))
    } else {
        c
    }
}

fn replace_char(c: char) -> (r: char)
    ensures
        r == replace_reserved_char(c),
{
    if c == '/' || c == '\\' || c == ':' || c == '*' || c == '?' || c == '"' || c == '<' || c
        == '>' || c == '|' || c == '\0' || c == ' ' {
        '_'
    } else {
        c
    }
}

proof fn lemma_trim_start_clean(s: Seq<char>)
    ensures
        trim_start_underscores(s).len() == 0 || trim_start_underscores(s)[0] != '_',
    decreases s.len(),
{
    if s.len() > 0 && s[0] == '_' {
        lemma_trim_start_clean(s.drop_first());
    }
}

proof fn lemma_trim_end_clean(s: Seq<char>)
    ensures
        trim_end_underscores(s).len() == 0 || trim_end_underscores(s).last() != '_',
        trim_end_underscores(s).len() <= s.len(),
        trim_end_underscores(s) == s.subrange(0, trim_end_underscores(s).len() as int),
    decreases s.len(),
{
    if s.len() > 0 && s.last() == '_' {
        lemma_trim_end_clean(s.drop_last());
        let t = trim_end_underscores(s.drop_last());
        assert(s.drop_last().subrange(0, t.len() as int) =~= s.subrange(0, t.len() as int));
    } else {
        assert(s.subrange(0, s.len() as int) =~= s);
    }
}

proof fn lemma_trim_end_nonempty(s: Seq<char>)
    requires
        s.len() > 0,
        s[0] != '_',
    ensures
        trim_end_underscores(s).len() > 0,
    decreases s.len(),
{
    if s.last() == '_' {
        assert(s.drop_last()[0] == s[0]);
        lemma_trim_end_nonempty(s.drop_last());
    }
}

proof fn lemma_collapse_ends(s: Seq<char>)
    requires
        s.len() > 0,
    ensures
        collapse_underscores(s).len() > 0,
        collapse_underscores(s).len() <= s.len(),
        collapse_underscores(s)[0] == s[0],
        collapse_underscores(s).last() == s.last(),
    decreases s.len(),
{
    let p = s.drop_last();
    if s.len() == 1 {
        assert(collapse_underscores(p) == p);
    } else {
        lemma_collapse_ends(p);
        assert(p[0] == s[0]);
        assert(p.last() == s[s.len() - 2]);
    }
}

/// Every base id is non-empty, at most `MAX_ID_CHARS` long, and does not end
/// with `_`.
pub proof fn lemma_sanitized_shape(title: Seq<char>)
    ensures
        sanitized(title).len() > 0,
        sanitized(title).len() <= MAX_ID_CHARS,
        sanitized(title).last() != '_',
{
    let m = replace_reserved(title);
    let a = trim_start_underscores(m);
    let t = trim_end_underscores(a);
    let c = collapse_underscores(t);
    lemma_trim_start_clean(m);
    lemma_trim_end_clean(a);
    if c.len() == 0 {
        reveal_strlit("Untitled");
    } else {
        if t.len() == 0 {
            assert(c == t);
        }
        lemma_collapse_ends(t);
        assert(t[0] == a[0]);
        if c.len() > MAX_ID_CHARS {
            let cut = c.subrange(0, MAX_ID_CHARS as int);
            lemma_trim_end_clean(cut);
            assert(cut[0] == c[0]);
            lemma_trim_end_nonempty(cut);
        }
    }
}

/// The base id that a document titled `title` is stored under, before the id
/// is made unique.
pub fn sanitize_filename(title: &str) -> (r: String)
    ensures
        r@ == sanitized(title@),
        0 < r@.len() <= MAX_ID_CHARS,
        r@.last() != '_',
{
    proof {
        lemma_sanitized_shape(title@);
    }
    let src = chars_of(title);
    let n = src.len();
    let ghost m = replace_reserved(title@);
    assert(m.subrange(0, n as int) =~= m);
    // skip the leading underscores
    let mut lo: usize = 0;
    while lo < n && replace_char(src[lo]) == '_'
        invariant
            n == src@.len(),
            src@ == title@,
            m == replace_reserved(title@),
            lo <= n,
            trim_start_underscores(m) == trim_start_underscores(m.subrange(lo as int, n as int)),
        decreases n - lo,
    {
        assert(m.subrange(lo as int, n as int).drop_first() =~= m.subrange(lo + 1, n as int));
        lo += 1;
    }
    proof {
        if lo < n {
            assert(m.subrange(lo as int, n as int)[0] != '_');
        }
    }
    assert(trim_start_underscores(m) == m.subrange(lo as int, n as int));
    // skip the trailing underscores
    let mut hi: usize = n;
    while hi > lo && replace_char(src[hi - 1]) == '_'
        invariant
            n == src@.len(),
            src@ == title@,
            m == replace_reserved(title@),
            lo <= hi <= n,
            trim_end_underscores(m.subrange(lo as int, n as int)) == trim_end_underscores(
                m.subrange(lo as int, hi as int),
            ),
        decreases hi,
    {
        assert(m.subrange(lo as int, hi as int).drop_last() =~= m.subrange(lo as int, hi - 1));
        hi -= 1;
    }
    let ghost t = m.subrange(lo as int, hi as int);
    assert(trim_end_underscores(trim_start_underscores(m)) == t);
    // collapse runs of underscores
    let mut out: Vec<char> = Vec::new();
    let mut prev_underscore = false;
    let mut i: usize = lo;
    while i < hi
        invariant
            n == src@.len(),
            src@ == title@,
            m == replace_reserved(title@),
            lo <= i <= hi <= n,
            t == m.subrange(lo as int, hi as int),
            out@ == collapse_underscores(m.subrange(lo as int, i as int)),
            prev_underscore == (i > lo && m[i - 1] == '_'),
        decreases hi - i,
    {
        let c = replace_char(src[i]);
        let ghost before = m.subrange(lo as int, i as int);
        assert(m.subrange(lo as int, i + 1).drop_last() =~= before);
        if c == '_' {
            if !prev_underscore {
                out.push(c);
            }
            prev_underscore = true;
        } else {
            out.push(c);
            prev_underscore = false;
        }
        i += 1;
    }
    assert(out@ == collapse_underscores(t));
    if out.len() == 0 {
        return String::from_str("Untitled");
    }
    if out.len() > MAX_ID_CHARS {
        let ghost cut = out@.subrange(0, MAX_ID_CHARS as int);
        out.truncate(MAX_ID_CHARS);
        assert(out@ =~= cut);
        while out.len() > 0 && out[out.len() - 1] == '_'
            invariant
                trim_end_underscores(cut) == trim_end_underscores(out@),
            decreases out.len(),
        {
            assert(out@.drop_last() =~= out@.subrange(0, out.len() - 1));
            out.pop();
        }
        assert(trim_end_underscores(out@) == out@);
    }
    string_from_chars(&out)
}

} // verus!
