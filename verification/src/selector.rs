//! Selectors: the request line with its terminator and surrounding white
//! space removed.

use vstd::prelude::*;
use vstd::string::*;

verus! {

/// Whether `c` has the Unicode property `White_Space`.
pub open spec fn is_whitespace(c: char) -> bool {
    let n = c as u32;
    ||| 0x09 <= n <= 0x0D
    ||| n == 0x20
    ||| n == 0x85
    ||| n == 0xA0
    ||| n == 0x1680
    ||| 0x2000 <= n <= 0x200A
    ||| n == 0x2028
    ||| n == 0x2029
    ||| n == 0x202F
    ||| n == 0x205F
    ||| n == 0x3000
}

/// `s` without its leading white space.
pub open spec fn skip_leading(s: Seq<char>) -> Seq<char>
    decreases s.len(),
{
    if s.len() > 0 && is_whitespace(s.first()) {
        skip_leading(s.drop_first())
    } else {
        s
    }
}

/// `s` without its trailing white space.
pub open spec fn skip_trailing(s: Seq<char>) -> Seq<char>
    decreases s.len(),
{
    if s.len() > 0 && is_whitespace(s.last()) {
        skip_trailing(s.drop_last())
    } else {
        s
    }
}

/// The selector that a request line carries: the line without the white
/// space, line terminator included, at either end.
pub open spec fn trimmed(s: Seq<char>) -> Seq<char> {
    skip_trailing(skip_leading(s))
}

/// `a` and `b` cut `s` exactly at its first and behind its last character
/// that is not white space.
pub open spec fn trim_bounds(s: Seq<char>, a: int, b: int) -> bool {
    &&& 0 <= a <= b <= s.len()
    &&& forall|i: int| 0 <= i < a ==> is_whitespace(#[trigger] s[i])
    &&& forall|i: int| b <= i < s.len() ==> is_whitespace(#[trigger] s[i])
    &&& a < b ==> !is_whitespace(s[a]) && !is_whitespace(s[b - 1])
    &&& a == b ==> a == s.len()
}

/// Cutting `a` leading white-space characters, where the next one is none,
/// is `skip_leading`.
pub proof fn lemma_skip_leading(s: Seq<char>, a: int)
    requires
        0 <= a <= s.len(),
        forall|i: int| 0 <= i < a ==> is_whitespace(#[trigger] s[i]),
        a < s.len() ==> !is_whitespace(s[a]),
    ensures
        skip_leading(s) == s.subrange(a, s.len() as int),
    decreases a,
{
    if a == 0 {
        assert(s.subrange(0, s.len() as int) =~= s);
    } else {
        let t = s.drop_first();
        assert forall|i: int| 0 <= i < a - 1 implies is_whitespace(#[trigger] t[i]) by {
            assert(t[i] == s[i + 1]);
        }
        lemma_skip_leading(t, a - 1);
        assert(t.subrange(a - 1, t.len() as int) =~= s.subrange(a, s.len() as int));
    }
}

/// Cutting the white space behind `b`, where the character before `b` is
/// none, is `skip_trailing`.
pub proof fn lemma_skip_trailing(s: Seq<char>, b: int)
    requires
        0 <= b <= s.len(),
        forall|i: int| b <= i < s.len() ==> is_whitespace(#[trigger] s[i]),
        0 < b ==> !is_whitespace(s[b - 1]),
    ensures
        skip_trailing(s) == s.subrange(0, b),
    decreases s.len() - b,
{
    if b == s.len() {
        assert(s.subrange(0, b) =~= s);
    } else {
        let t = s.drop_last();
        lemma_skip_trailing(t, b);
        assert(t.subrange(0, b) =~= s.subrange(0, b));
    }
}

/// Trimming cuts at the first and behind the last character that is not
/// white space, and at no other place.
pub proof fn lemma_trimmed_is_cut(s: Seq<char>, a: int, b: int)
    requires
        trim_bounds(s, a, b),
    ensures
        trimmed(s) == s.subrange(a, b),
{
    lemma_skip_leading(s, a);
    let t = s.subrange(a, s.len() as int);
    assert forall|i: int| b - a <= i < t.len() implies is_whitespace(#[trigger] t[i]) by {
        assert(t[i] == s[i + a]);
    }
    lemma_skip_trailing(t, b - a);
    assert(t.subrange(0, b - a) =~= s.subrange(a, b));
}

/// A trimmed selector neither starts nor ends with white space, so that
/// trimming it again changes nothing.
pub proof fn lemma_trimmed_is_trim(s: Seq<char>)
    ensures
        trimmed(s).len() > 0 ==> !is_whitespace(trimmed(s).first()) && !is_whitespace(
            trimmed(s).last(),
        ),
        trimmed(s).len() <= s.len(),
        trimmed(trimmed(s)) == trimmed(s),
{
    lemma_trim_bounds_exist(s);
    let (a, b) = choose|a: int, b: int| trim_bounds(s, a, b);
    lemma_trimmed_is_cut(s, a, b);
    let t = s.subrange(a, b);
    assert(trim_bounds(t, 0, t.len() as int));
    lemma_trimmed_is_cut(t, 0, t.len() as int);
    assert(t.subrange(0, t.len() as int) =~= t);
}

/// Every line has its cut.
pub proof fn lemma_trim_bounds_exist(s: Seq<char>)
    ensures
        exists|a: int, b: int| trim_bounds(s, a, b),
    decreases s.len(),
{
    if s.len() == 0 {
        assert(trim_bounds(s, 0, 0));
    } else if is_whitespace(s.last()) {
        let t = s.drop_last();
        lemma_trim_bounds_exist(t);
        let (a, b) = choose|a: int, b: int| trim_bounds(t, a, b);
        assert forall|i: int| 0 <= i < t.len() implies s[i] == t[i] by {}
        if a == b {
            assert forall|i: int| 0 <= i < s.len() implies is_whitespace(#[trigger] s[i]) by {
                if i < t.len() {
                    assert(is_whitespace(t[i]));
                }
            }
            assert(trim_bounds(s, s.len() as int, s.len() as int));
        } else {
            assert forall|i: int| 0 <= i < a implies is_whitespace(#[trigger] s[i]) by {
                assert(is_whitespace(t[i]));
            }
            assert forall|i: int| b <= i < s.len() implies is_whitespace(#[trigger] s[i]) by {
                if i < t.len() {
                    assert(is_whitespace(t[i]));
                }
            }
            assert(trim_bounds(s, a, b));
        }
    } else if is_whitespace(s.first()) {
        let t = s.drop_first();
        lemma_trim_bounds_exist(t);
        let (a, b) = choose|a: int, b: int| trim_bounds(t, a, b);
        assert(t.last() == s.last());
        assert(a < b);
        assert forall|i: int| 0 <= i < a + 1 implies is_whitespace(#[trigger] s[i]) by {
            if i > 0 {
                assert(s[i] == t[i - 1]);
            }
        }
        assert forall|i: int| b + 1 <= i < s.len() implies is_whitespace(#[trigger] s[i]) by {
            assert(s[i] == t[i - 1]);
        }
        assert(trim_bounds(s, a + 1, b + 1));
    } else {
        assert(trim_bounds(s, 0, s.len() as int));
    }
}

/// Whether `c` is white space.
pub fn is_whitespace_char(c: char) -> (b: bool)
    ensures
        b == is_whitespace(c),
{
    let n: u32 = c as u32;
    (0x09 <= n && n <= 0x0D) || n == 0x20 || n == 0x85 || n == 0xA0 || n == 0x1680 || (0x2000 <= n
        && n <= 0x200A) || n == 0x2028 || n == 0x2029 || n == 0x202F || n == 0x205F || n == 0x3000
}

/// The selector of a request line: the line without the white space at
/// either end. Counts characters, not bytes.
pub fn trim_selector(line: &str) -> (selector: &str)
    ensures
        selector@ == trimmed(line@),
{
    let n: usize = line.unicode_len();
    let mut a: usize = 0;
    while a < n && is_whitespace_char(line.get_char(a))
        invariant
            a <= n,
            n == line@.len(),
            forall|i: int| 0 <= i < a ==> is_whitespace(#[trigger] line@[i]),
        decreases n - a,
    {
        a = a + 1;
    }
    let mut b: usize = n;
    while b > a && is_whitespace_char(line.get_char(b - 1))
        invariant
            a <= b <= n,
            n == line@.len(),
            forall|i: int| b <= i < n ==> is_whitespace(#[trigger] line@[i]),
        decreases b,
    {
        b = b - 1;
    }
    proof {
        if a == b && a < n {
            // the first loop stopped at a character that is not white space
            assert(!is_whitespace(line@[a as int]));
            assert(false);
        }
        lemma_trimmed_is_cut(line@, a as int, b as int);
    }
    line.substring_char(a, b)
}

} // verus!
