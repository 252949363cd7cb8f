//! Strings as sequences of characters: conversion, prefixes and order.

use vstd::prelude::*;

verus! {

/// The characters of a string, one by one.
pub fn chars_of(s: &str) -> (out: Vec<char>)
    ensures
        out@ == s@,
{
    let mut out: Vec<char> = Vec::new();
    for c in it: s.chars()
        invariant
            it.seq() == s@,
            out@ == s@.take(it.index() as int),
    {
        out.push(c);
        assert(s@.take(it.index() + 1) =~= s@.take(it.index() as int).push(c));
    }
    assert(s@.take(s@.len() as int) =~= s@);
    out
}

/// A text or a message, as sequences of characters.
pub open spec fn text_result(r: Result<String, String>) -> Result<Seq<char>, Seq<char>> {
    match r {
        Ok(s) => Ok(s@),
        Err(m) => Err(m@),
    }
}

/// A text, if there is one, as a sequence of characters.
pub open spec fn text_option(o: Option<String>) -> Option<Seq<char>> {
    match o {
        Some(s) => Some(s@),
        None => None,
    }
}

/// The texts of a list as sequences of characters.
pub open spec fn text_list(list: Seq<String>) -> Seq<Seq<char>> {
    list.map_values(|s: String| s@)
}

/// The texts of a list, where there are any, as sequences of characters.
pub open spec fn text_options(list: Seq<Option<String>>) -> Seq<Option<Seq<char>>> {
    list.map_values(|o: Option<String>| text_option(o))
}

/// `String::push` of std: the string grows by the one character, at its end.
#[verifier::external_body]
pub(crate) fn push_char(s: &mut String, c: char)
    ensures
        final(s)@ == old(s)@.push(c),
{
    s.push(c);
}

/// The string that holds the given characters.
pub fn string_of(chars: &Vec<char>) -> (out: String)
    ensures
        out@ == chars@,
{
    let mut out = String::new();
    let mut i: usize = 0;
    while i < chars.len()
        invariant
            0 <= i <= chars.len(),
            out@ == chars@.take(i as int),
        decreases chars.len() - i,
    {
        push_char(&mut out, chars[i]);
        assert(chars@.take(i + 1) =~= chars@.take(i as int).push(chars@[i as int]));
        i += 1;
    }
    assert(chars@.take(chars@.len() as int) =~= chars@);
    out
}

/// Whether `prefix` stands at the start of `s`.
pub fn starts_with(s: &Vec<char>, prefix: &Vec<char>) -> (out: bool)
    ensures
        out == prefix@.is_prefix_of(s@),
{
    if prefix.len() > s.len() {
        return false;
    }
    let mut i: usize = 0;
    while i < prefix.len()
        invariant
            0 <= i <= prefix.len() <= s.len(),
            forall|k: int| 0 <= k < i ==> prefix@[k] == s@[k],
        decreases prefix.len() - i,
    {
        if prefix[i] != s[i] {
            return false;
        }
        i += 1;
    }
    assert(prefix@ =~= s@.subrange(0, prefix@.len() as int));
    true
}

/// `a` comes before `b` in the order of strings: at the first place where
/// the two differ `a` has the lower character, or `a` ends there and `b`
/// goes on.
pub open spec fn precedes(a: Seq<char>, b: Seq<char>) -> bool {
    exists|k: int| #[trigger] first_difference(a, b, k)
}

/// `k` is the first place at which `a` and `b` differ, and `a` is the lower
/// there.
pub open spec fn first_difference(a: Seq<char>, b: Seq<char>, k: int) -> bool {
    &&& 0 <= k <= a.len()
    &&& k < b.len()
    &&& a.take(k) == b.take(k)
    &&& (k < a.len() ==> (a[k] as u32) < (b[k] as u32))
}

/// Whether `a` comes before `b` in the order of strings.
pub fn comes_before(a: &Vec<char>, b: &Vec<char>) -> (out: bool)
    ensures
        out == precedes(a@, b@),
{
    let mut i: usize = 0;
    while i < a.len() && i < b.len()
        invariant
            0 <= i <= a.len(),
            i <= b.len(),
            a@.take(i as int) == b@.take(i as int),
        decreases a.len() - i,
    {
        if a[i] != b[i] {
            let lower = (a[i] as u32) < (b[i] as u32);
            proof {
                if lower {
                    assert(first_difference(a@, b@, i as int));
                } else {
                    assert forall|k: int| !first_difference(a@, b@, k) by {
                        if first_difference(a@, b@, k) {
                            lemma_take_differs(a@, b@, i as int, k);
                        }
                    }
                }
            }
            return lower;
        }
        assert(a@.take(i + 1) =~= a@.take(i as int).push(a@[i as int]));
        assert(b@.take(i + 1) =~= b@.take(i as int).push(b@[i as int]));
        i += 1;
    }
    let shorter = i < b.len();
    proof {
        if shorter {
            assert(first_difference(a@, b@, i as int));
        } else {
            assert forall|k: int| !first_difference(a@, b@, k) by {
                if first_difference(a@, b@, k) {
                    assert(b@.take(i as int) =~= b@);
                    assert(a@.take(i as int)[k] == b@.take(i as int)[k]);
                }
            }
        }
    }
    shorter
}

/// Where `a` and `b` agree before `i` and differ at `i`, a first difference
/// at `k` is at `i`.
pub proof fn lemma_take_differs(a: Seq<char>, b: Seq<char>, i: int, k: int)
    requires
        0 <= i < a.len(),
        i < b.len(),
        a.take(i) == b.take(i),
        a[i] != b[i],
        first_difference(a, b, k),
    ensures
        k == i,
{
    if k > i {
        assert(a.take(k)[i] == a[i]);
        assert(b.take(k)[i] == b[i]);
    } else if k < i {
        assert(a.take(i)[k] == a[k]);
        assert(b.take(i)[k] == b[k]);
    }
}

/// No string comes before itself.
pub proof fn lemma_precedes_irreflexive(a: Seq<char>)
    ensures
        !precedes(a, a),
{
}

/// If `a` comes before `b`, then `b` does not come before `a`.
pub proof fn lemma_precedes_asymmetric(a: Seq<char>, b: Seq<char>)
    requires
        precedes(a, b),
    ensures
        !precedes(b, a),
{
    let k = choose|k: int| first_difference(a, b, k);
    assert forall|m: int| !first_difference(b, a, m) by {
        if first_difference(b, a, m) {
            if k < m {
                assert(a.take(m)[k] == a[k]);
                assert(b.take(m)[k] == b[k]);
            } else if m < k {
                assert(a.take(k)[m] == a[m]);
                assert(b.take(k)[m] == b[m]);
            }
        }
    }
}

/// If `a` comes before `b` and `b` before `c`, then `a` comes before `c`.
pub proof fn lemma_precedes_transitive(a: Seq<char>, b: Seq<char>, c: Seq<char>)
    requires
        precedes(a, b),
        precedes(b, c),
    ensures
        precedes(a, c),
{
    let k = choose|k: int| first_difference(a, b, k);
    let m = choose|m: int| first_difference(b, c, m);
    let n = if k <= m {
        k
    } else {
        m
    };
    assert(a.take(n) =~= c.take(n)) by {
        assert forall|i: int| 0 <= i < n implies a[i] == c[i] by {
            assert(a.take(k)[i] == a[i]);
            assert(b.take(k)[i] == b[i]);
            assert(b.take(m)[i] == b[i]);
            assert(c.take(m)[i] == c[i]);
        }
    }
    if k < m {
        assert(b.take(m)[k] == b[k]);
        assert(c.take(m)[k] == c[k]);
    } else if m < k {
        assert(a.take(k)[m] == a[m]);
        assert(b.take(k)[m] == b[m]);
    }
    assert(first_difference(a, c, n));
}

/// Of two different strings one comes before the other.
pub proof fn lemma_precedes_total(a: Seq<char>, b: Seq<char>)
    requires
        a != b,
    ensures
        precedes(a, b) || precedes(b, a),
{
    assert(a.take(0) =~= b.take(0));
    lemma_differ_from(a, b, 0);
}

/// Two different strings that agree before `i` are ordered.
proof fn lemma_differ_from(a: Seq<char>, b: Seq<char>, i: int)
    requires
        a != b,
        0 <= i <= a.len(),
        i <= b.len(),
        a.take(i) == b.take(i),
    ensures
        precedes(a, b) || precedes(b, a),
    decreases a.len() - i,
{
    if i == a.len() {
        if i == b.len() {
            assert(a.take(i) =~= a);
            assert(b.take(i) =~= b);
        } else {
            assert(first_difference(a, b, i));
        }
    } else if i == b.len() {
        assert(first_difference(b, a, i));
    } else if a[i] != b[i] {
        if (a[i] as u32) < (b[i] as u32) {
            assert(first_difference(a, b, i));
        } else {
            vstd::utf8::char_u32_cast(a[i], a[i] as u32);
            vstd::utf8::char_u32_cast(b[i], b[i] as u32);
            assert(first_difference(b, a, i));
        }
    } else {
        assert(a.take(i + 1) =~= a.take(i).push(a[i]));
        assert(b.take(i + 1) =~= b.take(i).push(b[i]));
        lemma_differ_from(a, b, i + 1);
    }
}

/// A string comes before every string that it properly begins.
pub proof fn lemma_proper_prefix_precedes(a: Seq<char>, rest: Seq<char>)
    requires
        rest.len() > 0,
    ensures
        precedes(a, a + rest),
{
    assert((a + rest).take(a.len() as int) =~= a);
    assert(a.take(a.len() as int) =~= a);
    assert(first_difference(a, a + rest, a.len() as int));
}

/// Where `a` has the lower character at the first place where it differs
/// from `b`, whatever is appended to the two leaves `a` before `b`.
pub proof fn lemma_precedes_extended(
    a: Seq<char>,
    b: Seq<char>,
    k: int,
    s: Seq<char>,
    t: Seq<char>,
)
    requires
        first_difference(a, b, k),
        k < a.len(),
    ensures
        precedes(a + s, b + t),
{
    assert((a + s).take(k) =~= a.take(k));
    assert((b + t).take(k) =~= b.take(k));
    assert(first_difference(a + s, b + t, k));
}

/// A common start does not change the order of what follows it.
pub proof fn lemma_precedes_after_prefix(p: Seq<char>, a: Seq<char>, b: Seq<char>)
    ensures
        precedes(p + a, p + b) <==> precedes(a, b),
{
    if precedes(a, b) {
        let k = choose|k: int| first_difference(a, b, k);
        assert((p + a).take(p.len() + k) =~= p + a.take(k));
        assert((p + b).take(p.len() + k) =~= p + b.take(k));
        assert(first_difference(p + a, p + b, p.len() + k));
    }
    if precedes(p + a, p + b) {
        let k = choose|k: int| first_difference(p + a, p + b, k);
        if k < p.len() {
            assert((p + a)[k] == p[k]);
            assert((p + b)[k] == p[k]);
        } else {
            let m = k - p.len();
            assert(a.take(m) =~= b.take(m)) by {
                assert forall|i: int| 0 <= i < m implies a[i] == b[i] by {
                    assert((p + a).take(k)[p.len() + i] == (p + a)[p.len() + i]);
                    assert((p + b).take(k)[p.len() + i] == (p + b)[p.len() + i]);
                }
            }
            if m < a.len() {
                assert((p + a)[k] == a[m]);
                assert((p + b)[k] == b[m]);
            }
            assert(first_difference(a, b, m));
        }
    }
}

} // verus!
