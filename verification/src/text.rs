//! Text as sequences of characters: conversions between `str` and `Vec<char>`,
//! and the small rewriting rules the interpreter applies to request arguments.

use vstd::prelude::*;
use vstd::std_specs::iter::IteratorSpec;

verus! {

/// `String::push` of the standard library: the string afterwards is the string
/// before with `c` appended as its last character.
pub assume_specification[ String::push ](s: &mut String, c: char)
    ensures
        final(s)@ == old(s)@.push(c),
;

/// Whether a character is whitespace in Unicode's sense: whether it has
/// the property `White_Space`. These are the controls from tab to carriage
/// return, the space, next line, the no-break space, the Ogham space mark,
/// the spaces from en quad to hair space, the line and the paragraph
/// separator, the narrow no-break space, the medium mathematical space and
/// the ideographic space.
pub open spec fn white_space(c: char) -> bool {
    let n = c as u32;
    ||| 0x09 <= n <= 0x0d
    ||| n == 0x20
    ||| n == 0x85
    ||| n == 0xa0
    ||| n == 0x1680
    ||| 0x2000 <= n <= 0x200a
    ||| n == 0x2028
    ||| n == 0x2029
    ||| n == 0x202f
    ||| n == 0x205f
    ||| n == 0x3000
}

/// `char::is_whitespace` of the standard library: it answers whether the
/// character has the property `White_Space`, which [`white_space`] spells out.
pub assume_specification[ char::is_whitespace ](c: char) -> (b: bool)
    ensures
        b == white_space(c),
;

/// The characters of `s`, in order.
pub fn to_chars(s: &str) -> (v: Vec<char>)
    ensures
        v@ == s@,
{
    let mut it = s.chars();
    let mut v: Vec<char> = Vec::new();
    loop
        invariant
            it.obeys_prophetic_iter_laws(),
            it.decrease() is Some,
            v@ + it.remaining() == s@,
        ensures
            v@ == s@,
        decreases it.decrease()->0,
    {
        let ghost before = it.remaining();
        match it.next() {
            Some(c) => {
                v.push(c);
                assert(v@ + it.remaining() =~= s@) by {
                    assert(before =~= seq![c] + before.drop_first());
                }
            },
            None => {
                assert(v@ =~= v@ + it.remaining());
                break ;
            },
        }
    }
    v
}

/// The string made of the characters of `v`, in order.
pub fn from_chars(v: &Vec<char>) -> (s: String)
    ensures
        s@ == v@,
{
    let mut s = String::new();
    let mut i: usize = 0;
    while i < v.len()
        invariant
            i <= v.len(),
            s@ == v@.subrange(0, i as int),
        decreases v.len() - i,
    {
        s.push(v[i]);
        i += 1;
        assert(s@ =~= v@.subrange(0, i as int));
    }
    assert(v@.subrange(0, v.len() as int) =~= v@);
    s
}

/// Whether two texts hold the same characters.
pub fn same_text(a: &str, b: &str) -> (same: bool)
    ensures
        same == (a@ == b@),
{
    let x = a.to_owned();
    let y = b.to_owned();
    x == y
}


/// The position of the first `c` in `s`, or the length of `s` where it holds none.
pub open spec fn first_index(s: Seq<char>, c: char) -> int
    decreases s.len(),
{
    if s.len() == 0 || s[0] == c {
        0
    } else {
        1 + first_index(s.drop_first(), c)
    }
}

/// What stands before the first `c` in `s`: all of `s` where it holds none.
pub open spec fn before_first(s: Seq<char>, c: char) -> Seq<char> {
    s.subrange(0, first_index(s, c))
}

/// What stands after the first `c` in `s`: nothing where it holds none.
pub open spec fn after_first(s: Seq<char>, c: char) -> Seq<char> {
    if first_index(s, c) < s.len() {
        s.subrange(first_index(s, c) + 1, s.len() as int)
    } else {
        Seq::empty()
    }
}

/// `first_index` is within the text, nothing before it is `c`, and where it
/// is not the length, `c` stands there.
pub proof fn first_index_bounds(s: Seq<char>, c: char)
    ensures
        0 <= first_index(s, c) <= s.len(),
        forall|j: int| 0 <= j < first_index(s, c) ==> s[j] != c,
        first_index(s, c) < s.len() ==> s[first_index(s, c)] == c,
    decreases s.len(),
{
    if s.len() == 0 || s[0] == c {
    } else {
        let t = s.drop_first();
        first_index_bounds(t, c);
        assert forall|j: int| 0 <= j < first_index(s, c) implies s[j] != c by {
            if j > 0 {
                assert(s[j] == t[j - 1]);
            }
        }
        if first_index(s, c) < s.len() {
            assert(s[first_index(s, c)] == t[first_index(t, c)]);
        }
    }
}

/// A position with no `c` before it, which is the end or holds `c`, is `first_index`.
pub proof fn first_index_found(s: Seq<char>, c: char, i: int)
    requires
        0 <= i <= s.len(),
        forall|j: int| 0 <= j < i ==> s[j] != c,
        i < s.len() ==> s[i] == c,
    ensures
        first_index(s, c) == i,
    decreases s.len(),
{
    if i == 0 {
    } else {
        let t = s.drop_first();
        assert(s[0] != c);
        assert forall|j: int| 0 <= j < i - 1 implies t[j] != c by {
            assert(t[j] == s[j + 1]);
        }
        first_index_found(t, c, i - 1);
    }
}

/// Splits `s` at its first `sep`: the text before it and the text after it.
/// Without a `sep` the first part is all of `s` and the second is empty.
pub fn split_once(s: &str, sep: char) -> (parts: (String, String))
    ensures
        parts.0@ == before_first(s@, sep),
        parts.1@ == after_first(s@, sep),
{
    let v = to_chars(s);
    let mut i: usize = 0;
    while i < v.len() && v[i] != sep
        invariant
            i <= v.len(),
            forall|j: int| 0 <= j < i ==> v@[j] != sep,
        decreases v.len() - i,
    {
        i += 1;
    }
    proof {
        first_index_found(v@, sep, i as int);
    }
    let mut head: Vec<char> = Vec::new();
    let mut k: usize = 0;
    while k < i
        invariant
            k <= i <= v.len(),
            head@ == v@.subrange(0, k as int),
        decreases i - k,
    {
        head.push(v[k]);
        k += 1;
        assert(head@ =~= v@.subrange(0, k as int));
    }
    let mut tail: Vec<char> = Vec::new();
    if i < v.len() {
        let mut m: usize = i + 1;
        while m < v.len()
            invariant
                i + 1 <= m <= v.len(),
                tail@ == v@.subrange(i + 1, m as int),
            decreases v.len() - m,
        {
            tail.push(v[m]);
            m += 1;
            assert(tail@ =~= v@.subrange(i + 1, m as int));
        }
    }
    (from_chars(&head), from_chars(&tail))
}

/// `s` with every `c` taken out.
pub open spec fn without(s: Seq<char>, c: char) -> Seq<char>
    decreases s.len(),
{
    if s.len() == 0 {
        s
    } else if s.last() == c {
        without(s.drop_last(), c)
    } else {
        without(s.drop_last(), c).push(s.last())
    }
}

/// Nothing that `without` returns holds `c`, and what it returns is no longer than `s`.
pub proof fn without_holds_none(s: Seq<char>, c: char)
    ensures
        !without(s, c).contains(c),
        without(s, c).len() <= s.len(),
    decreases s.len(),
{
    if s.len() > 0 {
        without_holds_none(s.drop_last(), c);
        let r = without(s.drop_last(), c);
        if s.last() != c {
            assert forall|j: int| 0 <= j < r.push(s.last()).len() implies r.push(s.last())[j]
                != c by {
                if j < r.len() {
                    assert(r.contains(r[j]));
                }
            }
        }
    }
}

/// Removes every `c` from `s`.
pub fn strip_char(s: &str, c: char) -> (out: String)
    ensures
        out@ == without(s@, c),
{
    let v = to_chars(s);
    let mut kept: Vec<char> = Vec::new();
    let mut i: usize = 0;
    while i < v.len()
        invariant
            i <= v.len(),
            kept@ == without(v@.subrange(0, i as int), c),
        decreases v.len() - i,
    {
        assert(v@.subrange(0, i + 1).drop_last() =~= v@.subrange(0, i as int));
        if v[i] != c {
            kept.push(v[i]);
        }
        i += 1;
    }
    assert(v@.subrange(0, v.len() as int) =~= v@);
    from_chars(&kept)
}

/// `s` with every `from` replaced by `to`, position by position.
pub open spec fn replaced(s: Seq<char>, from: char, to: char) -> Seq<char> {
    Seq::new(
        s.len(),
        |i: int|
            if s[i] == from {
                to
            } else {
                s[i]
            },
    )
}

/// Replaces every `from` in `s` by `to`.
pub fn replace_char(s: &str, from: char, to: char) -> (out: String)
    ensures
        out@ == replaced(s@, from, to),
{
    let v = to_chars(s);
    let mut w: Vec<char> = Vec::new();
    let mut i: usize = 0;
    while i < v.len()
        invariant
            i <= v.len(),
            w@ == replaced(v@.subrange(0, i as int), from, to),
        decreases v.len() - i,
    {
        let c = v[i];
        w.push(if c == from { to } else { c });
        i += 1;
        assert(w@ =~= replaced(v@.subrange(0, i as int), from, to));
    }
    assert(v@.subrange(0, v.len() as int) =~= v@);
    from_chars(&w)
}

/// `s` without the whitespace at its end.
pub open spec fn trimmed_end(s: Seq<char>) -> Seq<char>
    decreases s.len(),
{
    if s.len() > 0 && white_space(s.last()) {
        trimmed_end(s.drop_last())
    } else {
        s
    }
}

/// Removes the whitespace at the end of `s`.
pub fn trim_end(s: &str) -> (out: String)
    ensures
        out@ == trimmed_end(s@),
{
    let v = to_chars(s);
    let mut n: usize = v.len();
    assert(v@.subrange(0, n as int) =~= v@);
    while n > 0 && v[n - 1].is_whitespace()
        invariant
            n <= v.len(),
            trimmed_end(v@) == trimmed_end(v@.subrange(0, n as int)),
        decreases n,
    {
        assert(v@.subrange(0, n as int).drop_last() =~= v@.subrange(0, n - 1));
        n -= 1;
    }
    let mut kept: Vec<char> = Vec::new();
    let mut k: usize = 0;
    while k < n
        invariant
            k <= n <= v.len(),
            kept@ == v@.subrange(0, k as int),
        decreases n - k,
    {
        kept.push(v[k]);
        k += 1;
        assert(kept@ =~= v@.subrange(0, k as int));
    }
    from_chars(&kept)
}

/// The decimal digit that stands for `d`, for `d` below ten.
pub open spec fn digit(d: nat) -> char {
    if d == 0 {
        '0'
    } else if d == 1 {
        '1'
    } else if d == 2 {
        '2'
    } else if d == 3 {
        '3'
    } else if d == 4 {
        '4'
    } else if d == 5 {
        '5'
    } else if d == 6 {
        '6'
    } else if d == 7 {
        '7'
    } else if d == 8 {
        '8'
    } else {
        '9'
    }
}

/// `n` written in decimal, without leading zeros.
pub open spec fn decimal(n: nat) -> Seq<char>
    decreases n,
{
    if n < 10 {
        seq![digit(n)]
    } else {
        decimal(n / 10).push(digit(n % 10))
    }
}

fn digit_char(d: u32) -> (c: char)
    requires
        d < 10,
    ensures
        c == digit(d as nat),
{
    match d {
        0 => '0',
        1 => '1',
        2 => '2',
        3 => '3',
        4 => '4',
        5 => '5',
        6 => '6',
        7 => '7',
        8 => '8',
        _ => '9',
    }
}

/// Writes `n` in decimal.
pub fn decimal_text(n: u32) -> (out: String)
    ensures
        out@ == decimal(n as nat),
    decreases n,
{
    if n < 10 {
        let mut s = String::new();
        s.push(digit_char(n));
        assert(s@ =~= seq![digit(n as nat)]);
        s
    } else {
        let mut s = decimal_text(n / 10);
        s.push(digit_char(n % 10));
        s
    }
}

/// `a` followed by `b`.
pub fn joined(a: &str, b: &str) -> (out: String)
    ensures
        out@ == a@ + b@,
{
    let mut s = a.to_owned();
    s.append(b);
    s
}

/// The value of an optional text: the characters it holds, if it holds any text.
pub open spec fn opt_text(o: Option<String>) -> Option<Seq<char>> {
    match o {
        Some(s) => Some(s@),
        None => None,
    }
}

/// The texts of a list of strings, in order.
pub open spec fn texts(v: Seq<String>) -> Seq<Seq<char>> {
    Seq::new(v.len(), |i: int| v[i]@)
}

} // verus!
