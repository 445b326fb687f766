//! Text helpers: white-space trimming, line endings and joining.
//!
//! All contracts are stated over `Seq<char>`, the view of `str` and `String`.

use vstd::prelude::*;
use vstd::string::*;

verus! {

/// The characters that carry the Unicode `White_Space` property.
pub open spec fn is_space(c: char) -> bool {
    let n = c as u32;
    ||| 0x09 <= n <= 0x0d
    ||| n == 0x20
    ||| n == 0x85
    ||| n == 0xa0
    ||| n == 0x1680
    ||| 0x2000 <= n <= 0x200a
    ||| n == 0x2028
    ||| n == 0x2029
    ||| n == 0x202f
    ||| n == 0x205f
    ||| n == 0x3000
}

/// `s` without its leading white space.
pub open spec fn skip_leading(s: Seq<char>) -> Seq<char>
    decreases s.len(),
{
    if s.len() > 0 && is_space(s.first()) {
        skip_leading(s.drop_first())
    } else {
        s
    }
}

/// `s` without its trailing white space.
pub open spec fn skip_trailing(s: Seq<char>) -> Seq<char>
    decreases s.len(),
{
    if s.len() > 0 && is_space(s.last()) {
        skip_trailing(s.drop_last())
    } else {
        s
    }
}

/// `s` without the white space that surrounds it.
pub open spec fn trimmed(s: Seq<char>) -> Seq<char> {
    skip_trailing(skip_leading(s))
}

/// `s` without one trailing line ending, `"\n"` or `"\r\n"`.
pub open spec fn without_newline(s: Seq<char>) -> Seq<char> {
    if s.len() > 0 && s.last() == '\n' {
        let t = s.drop_last();
        if t.len() > 0 && t.last() == '\r' {
            t.drop_last()
        } else {
            t
        }
    } else {
        s
    }
}

/// The `parts` written one after the other with `sep` between neighbours.
pub open spec fn joined(parts: Seq<Seq<char>>, sep: Seq<char>) -> Seq<char>
    decreases parts.len(),
{
    if parts.len() == 0 {
        Seq::empty()
    } else if parts.len() == 1 {
        parts[0]
    } else {
        joined(parts.drop_last(), sep) + sep + parts.last()
    }
}

/// The views of the strings in `v`, in order.
pub open spec fn views(v: Seq<String>) -> Seq<Seq<char>> {
    Seq::new(v.len(), |i: int| v[i]@)
}

/// Where the leading white space of `s` ends.
proof fn lemma_leading(s: Seq<char>) -> (i: int)
    ensures
        0 <= i <= s.len(),
        skip_leading(s) == s.subrange(i, s.len() as int),
        forall|k: int| 0 <= k < i ==> is_space(#[trigger] s[k]),
        i < s.len() ==> !is_space(s[i]),
    decreases s.len(),
{
    if s.len() > 0 && is_space(s.first()) {
        let rest = s.drop_first();
        let i = lemma_leading(rest);
        assert(rest.subrange(i, rest.len() as int) =~= s.subrange(i + 1, s.len() as int));
        assert forall|k: int| 0 <= k < i + 1 implies is_space(#[trigger] s[k]) by {
            if k > 0 {
                assert(s[k] == rest[k - 1]);
            }
        }
        i + 1
    } else {
        assert(s.subrange(0, s.len() as int) =~= s);
        0
    }
}

/// Where the trailing white space of `s` starts.
proof fn lemma_trailing(s: Seq<char>) -> (j: int)
    ensures
        0 <= j <= s.len(),
        skip_trailing(s) == s.subrange(0, j),
        forall|k: int| j <= k < s.len() ==> is_space(#[trigger] s[k]),
        0 < j ==> !is_space(s[j - 1]),
    decreases s.len(),
{
    if s.len() > 0 && is_space(s.last()) {
        let rest = s.drop_last();
        let j = lemma_trailing(rest);
        assert(rest.subrange(0, j) =~= s.subrange(0, j));
        assert forall|k: int| j <= k < s.len() implies is_space(#[trigger] s[k]) by {
            if k < s.len() - 1 {
                assert(s[k] == rest[k]);
            }
        }
        j
    } else {
        assert(s.subrange(0, s.len() as int) =~= s);
        s.len() as int
    }
}

/// Trimming keeps one stretch of `s`, from `i` up to `j`: all that comes
/// before and after it is white space, and it neither starts nor ends
/// with white space.
pub proof fn law_trimmed_is_the_core(s: Seq<char>) -> (bounds: (int, int))
    ensures
        ({
            let (i, j) = bounds;
            &&& 0 <= i <= j <= s.len()
            &&& trimmed(s) == s.subrange(i, j)
            &&& forall|k: int| 0 <= k < i ==> is_space(#[trigger] s[k])
            &&& forall|k: int| j <= k < s.len() ==> is_space(#[trigger] s[k])
            &&& i < j ==> !is_space(s[i]) && !is_space(s[j - 1])
        }),
{
    let i = lemma_leading(s);
    let t = s.subrange(i, s.len() as int);
    let m = lemma_trailing(t);
    let j = i + m;
    assert(t.subrange(0, m) =~= s.subrange(i, j));
    assert forall|k: int| j <= k < s.len() implies is_space(#[trigger] s[k]) by {
        assert(s[k] == t[k - i]);
    }
    if i < j {
        assert(t[m - 1] == s[j - 1]);
    }
    (i, j)
}

/// Trimming what is trimmed changes nothing.
pub proof fn law_trimming_twice_changes_nothing(s: Seq<char>)
    ensures
        trimmed(trimmed(s)) == trimmed(s),
{
    let (i, j) = law_trimmed_is_the_core(s);
    let t = trimmed(s);
    if i < j {
        assert(t.first() == s[i]);
        assert(t.last() == s[j - 1]);
    }
}

/// Tells whether `c` is white space.
pub fn is_whitespace(c: char) -> (r: bool)
    ensures
        r == is_space(c),
{
    let n: u32 = c as u32;
    (0x09 <= n && n <= 0x0d) || n == 0x20 || n == 0x85 || n == 0xa0 || n == 0x1680 || (0x2000 <= n
        && n <= 0x200a) || n == 0x2028 || n == 0x2029 || n == 0x202f || n == 0x205f || n == 0x3000
}

/// Tells whether two strings hold the same characters.
pub fn same_text(a: &str, b: &str) -> (r: bool)
    ensures
        r == (a@ == b@),
{
    String::from_str(a) == String::from_str(b)
}

/// Returns `s` with leading and trailing white space removed.
pub fn trim(s: &str) -> (r: String)
    ensures
        r@ == trimmed(s@),
{
    let n: usize = s.unicode_len();
    let mut i: usize = 0;
    assert(s@.subrange(0, n as int) =~= s@);
    loop
        invariant_except_break
            i <= n,
            n == s@.len(),
            skip_leading(s@) == skip_leading(s@.subrange(i as int, n as int)),
        ensures
            i <= n,
            n == s@.len(),
            skip_leading(s@) == s@.subrange(i as int, n as int),
        decreases n - i,
    {
        if i == n {
            break ;
        }
        let c = s.get_char(i);
        if !is_whitespace(c) {
            break ;
        }
        assert(s@.subrange(i as int, n as int).drop_first() =~= s@.subrange(i + 1, n as int));
        i = i + 1;
    }
    let mut j: usize = n;
    loop
        invariant_except_break
            i <= j <= n,
            n == s@.len(),
            trimmed(s@) == skip_trailing(s@.subrange(i as int, j as int)),
        ensures
            i <= j <= n,
            n == s@.len(),
            trimmed(s@) == s@.subrange(i as int, j as int),
        decreases j - i,
    {
        if j == i {
            break ;
        }
        let c = s.get_char(j - 1);
        if !is_whitespace(c) {
            break ;
        }
        assert(s@.subrange(i as int, j as int).drop_last() =~= s@.subrange(i as int, j - 1));
        j = j - 1;
    }
    String::from_str(s.substring_char(i, j))
}

/// Returns `s` without one trailing `"\n"` or `"\r\n"`.
pub fn strip_newline(s: &str) -> (r: String)
    ensures
        r@ == without_newline(s@),
{
    let n: usize = s.unicode_len();
    let mut end: usize = n;
    if n > 0 && s.get_char(n - 1) == '\n' {
        end = n - 1;
        if end > 0 && s.get_char(end - 1) == '\r' {
            end = end - 1;
        }
    }
    assert(s@.subrange(0, n as int) =~= s@);
    assert(n > 0 ==> s@.drop_last() =~= s@.subrange(0, n - 1));
    assert(n > 1 ==> s@.drop_last().drop_last() =~= s@.subrange(0, n - 2));
    String::from_str(s.substring_char(0, end))
}

/// Writes the `parts` one after the other with `sep` between neighbours.
pub fn join(parts: &Vec<String>, sep: &str) -> (r: String)
    ensures
        r@ == joined(views(parts@), sep@),
{
    let mut out = String::new();
    let mut i: usize = 0;
    while i < parts.len()
        invariant
            i <= parts.len(),
            out@ == joined(views(parts@).take(i as int), sep@),
        decreases parts.len() - i,
    {
        let ghost before = views(parts@).take(i as int);
        let ghost after = views(parts@).take(i + 1);
        assert(after.drop_last() =~= before);
        assert(after.last() == parts@[i as int]@);
        if i > 0 {
            out.append(sep);
        } else {
            assert(out@ + parts@[i as int]@ =~= parts@[i as int]@);
        }
        out.append(parts[i].as_str());
        i = i + 1;
    }
    assert(views(parts@).take(parts.len() as int) =~= views(parts@));
    out
}

} // verus!
