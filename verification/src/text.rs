//! Operations on text, stated over sequences of characters.
//!
//! Each function takes string slices and says what it returns in terms of the
//! characters they hold, so that the rules built on them (which prefix an href
//! has, where its extension starts, what trimming removes) can be stated
//! exactly.

use vstd::prelude::*;
use vstd::string::*;

verus! {

/// Whether `c` has the Unicode property `White_Space`.
pub open spec fn is_whitespace(c: char) -> bool {
    let n = c as u32;
    ||| 0x09 <= n <= 0x0D
    ||| n == 0x20
    ||| n == 0x85
    ||| n == 0xA0
    ||| n == 0x1680
    ||| 0x2000 <= n <= 0x200A
    ||| n == 0x2028
    ||| n == 0x2029
    ||| n == 0x202F
    ||| n == 0x205F
    ||| n == 0x3000
}

/// `s` without its leading whitespace.
pub open spec fn trim_start(s: Seq<char>) -> Seq<char>
    decreases s.len(),
{
    if s.len() > 0 && is_whitespace(s[0]) {
        trim_start(s.drop_first())
    } else {
        s
    }
}

/// `s` without its trailing whitespace.
pub open spec fn trim_end(s: Seq<char>) -> Seq<char>
    decreases s.len(),
{
    if s.len() > 0 && is_whitespace(s.last()) {
        trim_end(s.drop_last())
    } else {
        s
    }
}

/// `s` without leading and trailing whitespace.
pub open spec fn trim(s: Seq<char>) -> Seq<char> {
    trim_end(trim_start(s))
}

/// Whether `needle` occurs in `s` as a contiguous run of characters.
pub open spec fn has_substring(s: Seq<char>, needle: Seq<char>) -> bool {
    exists|i: int| occurs_at(s, needle, i)
}

/// Whether `needle` occurs in `s` starting at position `i`.
pub open spec fn occurs_at(s: Seq<char>, needle: Seq<char>, i: int) -> bool {
    0 <= i && i + needle.len() <= s.len() && s.subrange(i, i + needle.len()) == needle
}

/// What follows the last `sep` in `s`; all of `s` where it holds no `sep`.
pub open spec fn after_last(s: Seq<char>, sep: char) -> Seq<char>
    decreases s.len(),
{
    if s.len() == 0 || s.last() == sep {
        Seq::empty()
    } else {
        after_last(s.drop_last(), sep).push(s.last())
    }
}

/// Whether `i` is the first position in `s` that holds `sep`.
pub open spec fn is_first_sep(s: Seq<char>, sep: char, i: int) -> bool {
    &&& 0 <= i < s.len()
    &&& s[i] == sep
    &&& forall|j: int| 0 <= j < i ==> s[j] != sep
}

/// `s` split at its first `sep`: what stands before it and what stands after
/// it. Nothing where `s` holds no `sep`.
pub open spec fn split_first(s: Seq<char>, sep: char) -> Option<(Seq<char>, Seq<char>)> {
    if exists|i: int| is_first_sep(s, sep, i) {
        let i = choose|i: int| is_first_sep(s, sep, i);
        Some((s.subrange(0, i), s.subrange(i + 1, s.len() as int)))
    } else {
        None
    }
}

/// The pieces of `s` between its separators, in their order: one piece more
/// than `s` holds separators.
pub open spec fn pieces(s: Seq<char>, sep: char) -> Seq<Seq<char>>
    decreases s.len(),
{
    if s.len() == 0 {
        seq![Seq::empty()]
    } else {
        let before = pieces(s.drop_last(), sep);
        if s.last() == sep {
            before.push(Seq::empty())
        } else {
            before.update(before.len() - 1, before.last().push(s.last()))
        }
    }
}

/// The characters of `s`, one by one.
pub fn chars_of(s: &str) -> (chars: Vec<char>)
    ensures
        chars@ == s@,
{
    let mut chars: Vec<char> = Vec::new();
    for c in it: s.chars()
        invariant
            chars@ == it.seq().take(it.index() as int),
    {
        chars.push(c);
    }
    chars
}

/// Whether `c` is whitespace.
pub fn char_is_whitespace(c: char) -> (r: bool)
    ensures
        r == is_whitespace(c),
{
    let n: u32 = c as u32;
    (0x09 <= n && n <= 0x0D) || n == 0x20 || n == 0x85 || n == 0xA0 || n == 0x1680 || (0x2000 <= n
        && n <= 0x200A) || n == 0x2028 || n == 0x2029 || n == 0x202F || n == 0x205F || n == 0x3000
}

/// Whether `needle` stands in `s` at position `at`.
fn matches_at(s: &Vec<char>, needle: &Vec<char>, at: usize) -> (r: bool)
    requires
        at + needle.len() <= s.len(),
    ensures
        r == occurs_at(s@, needle@, at as int),
{
    let mut k: usize = 0;
    while k < needle.len()
        invariant
            at + needle.len() <= s.len(),
            k <= needle.len(),
            forall|j: int| 0 <= j < k ==> s@[at + j] == needle@[j],
        decreases needle.len() - k,
    {
        if s[at + k] != needle[k] {
            proof {
                let sub = s@.subrange(at as int, at + needle.len());
                assert(sub[k as int] == s@[at + k]);
            }
            return false;
        }
        k = k + 1;
    }
    assert(s@.subrange(at as int, at + needle.len()) =~= needle@);
    true
}

/// Whether `a` and `b` hold the same characters.
pub fn same_text(a: &str, b: &str) -> (r: bool)
    ensures
        r == (a@ == b@),
{
    let x = chars_of(a);
    let y = chars_of(b);
    if x.len() != y.len() {
        return false;
    }
    let r = matches_at(&x, &y, 0);
    assert(x@.subrange(0, y@.len() as int) =~= x@);
    r
}

/// Whether `s` begins with `prefix`.
pub fn starts_with(s: &str, prefix: &str) -> (r: bool)
    ensures
        r == prefix@.is_prefix_of(s@),
{
    let x = chars_of(s);
    let p = chars_of(prefix);
    if p.len() > x.len() {
        return false;
    }
    matches_at(&x, &p, 0)
}

/// Whether `needle` occurs somewhere in `s`.
pub fn contains(s: &str, needle: &str) -> (r: bool)
    ensures
        r == has_substring(s@, needle@),
{
    let x = chars_of(s);
    let p = chars_of(needle);
    if p.len() == 0 {
        assert(x@.subrange(0, 0) =~= p@);
        assert(occurs_at(x@, p@, 0));
        return true;
    }
    let mut i: usize = 0;
    while i <= x.len() && x.len() - i >= p.len()
        invariant
            x@ == s@,
            p@ == needle@,
            p.len() > 0,
            forall|j: int| 0 <= j < i ==> !occurs_at(x@, p@, j),
        decreases x.len() - i,
    {
        if matches_at(&x, &p, i) {
            return true;
        }
        i = i + 1;
    }
    false
}

/// `s` without leading and trailing whitespace.
pub fn trimmed(s: &str) -> (r: String)
    ensures
        r@ == trim(s@),
{
    let x = chars_of(s);
    let n: usize = x.len();
    let mut a: usize = 0;
    assert(x@.subrange(0, n as int) =~= x@);
    while a < n && char_is_whitespace(x[a])
        invariant
            n == x.len(),
            a <= n,
            trim_start(x@) == trim_start(x@.subrange(a as int, n as int)),
        decreases n - a,
    {
        assert(x@.subrange(a as int, n as int).drop_first() =~= x@.subrange(a + 1, n as int));
        a = a + 1;
    }
    let mut b: usize = n;
    while b > a && char_is_whitespace(x[b - 1])
        invariant
            n == x.len(),
            a <= b <= n,
            trim_end(x@.subrange(a as int, n as int)) == trim_end(x@.subrange(a as int, b as int)),
        decreases b,
    {
        assert(x@.subrange(a as int, b as int).drop_last() =~= x@.subrange(a as int, b - 1));
        b = b - 1;
    }
    s.substring_char(a, b).to_owned()
}

/// What follows the last `sep` in `s`; all of `s` where it holds no `sep`.
pub fn suffix_after_last(s: &str, sep: char) -> (r: String)
    ensures
        r@ == after_last(s@, sep),
{
    let x = chars_of(s);
    let n: usize = x.len();
    let mut b: usize = n;
    assert(x@.subrange(0, n as int) =~= x@);
    assert(x@.subrange(n as int, n as int) =~= Seq::<char>::empty());
    while b > 0 && x[b - 1] != sep
        invariant
            n == x.len(),
            b <= n,
            after_last(x@, sep) == after_last(x@.subrange(0, b as int), sep) + x@.subrange(
                b as int,
                n as int,
            ),
        decreases b,
    {
        proof {
            let head = x@.subrange(0, b as int);
            assert(head.drop_last() =~= x@.subrange(0, b - 1));
            assert(after_last(head.drop_last(), sep).push(head.last()) + x@.subrange(
                b as int,
                n as int,
            ) =~= after_last(head.drop_last(), sep) + x@.subrange(b - 1, n as int));
        }
        b = b - 1;
    }
    s.substring_char(b, n).to_owned()
}

/// Splits `s` at its first `sep`.
pub fn split_once(s: &str, sep: char) -> (r: Option<(String, String)>)
    ensures
        r.deep_view() == split_first(s@, sep),
{
    let x = chars_of(s);
    let n: usize = x.len();
    let mut i: usize = 0;
    while i < n
        invariant
            n == x.len(),
            x@ == s@,
            i <= n,
            forall|j: int| 0 <= j < i ==> x@[j] != sep,
        decreases n - i,
    {
        if x[i] == sep {
            proof {
                assert(is_first_sep(s@, sep, i as int));
                let chosen = choose|k: int| is_first_sep(s@, sep, k);
                if chosen < i {
                    assert(s@[chosen] != sep);
                } else if i < chosen {
                    assert(s@[i as int] != sep);
                }
            }
            let before = s.substring_char(0, i).to_owned();
            let after = s.substring_char(i + 1, n).to_owned();
            return Some((before, after));
        }
        i = i + 1;
    }
    proof {
        if exists|k: int| is_first_sep(s@, sep, k) {
            let k = choose|k: int| is_first_sep(s@, sep, k);
            assert(x@[k] != sep);
        }
    }
    None
}

/// Splits `s` at every `sep`.
pub fn split(s: &str, sep: char) -> (parts: Vec<String>)
    ensures
        parts.deep_view() == pieces(s@, sep),
{
    let x = chars_of(s);
    let n: usize = x.len();
    let mut parts: Vec<String> = Vec::new();
    let mut start: usize = 0;
    let mut i: usize = 0;
    proof {
        assert(x@.take(0) =~= Seq::empty());
        assert(parts.deep_view().push(x@.subrange(0, 0)) =~= pieces(x@.take(0), sep));
    }
    while i < n
        invariant
            n == x.len(),
            x@ == s@,
            start <= i <= n,
            parts.deep_view().push(x@.subrange(start as int, i as int)) == pieces(
                x@.take(i as int),
                sep,
            ),
        decreases n - i,
    {
        let ghost before = parts.deep_view();
        let ghost current = x@.subrange(start as int, i as int);
        proof {
            assert(x@.take(i + 1).drop_last() =~= x@.take(i as int));
            assert(x@.take(i + 1).last() == x@[i as int]);
            assert(before.push(current).last() == current);
        }
        if x[i] == sep {
            parts.push(s.substring_char(start, i).to_owned());
            start = i + 1;
            proof {
                assert(parts.deep_view() =~= before.push(current));
                assert(x@.subrange(start as int, i + 1) =~= Seq::empty());
            }
        } else {
            proof {
                assert(x@.subrange(start as int, i + 1) =~= current.push(x@[i as int]));
                assert(before.push(current).update(
                    before.len() as int,
                    current.push(x@[i as int]),
                ) =~= before.push(current.push(x@[i as int])));
            }
        }
        i = i + 1;
    }
    let ghost before = parts.deep_view();
    parts.push(s.substring_char(start, n).to_owned());
    proof {
        assert(x@.take(n as int) =~= x@);
        assert(parts.deep_view() =~= before.push(x@.subrange(start as int, n as int)));
    }
    parts
}

/// `a`, then `b`.
pub fn concat(a: &str, b: &str) -> (r: String)
    ensures
        r@ == a@ + b@,
{
    let mut r = a.to_owned();
    r.append(b);
    r
}

/// `a`, then `sep`, then `b`.
pub fn joined(a: &str, sep: &str, b: &str) -> (r: String)
    ensures
        r@ == a@ + sep@ + b@,
{
    let mut r = a.to_owned();
    r.append(sep);
    r.append(b);
    r
}

} // verus!
