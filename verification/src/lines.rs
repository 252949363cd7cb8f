//! Editing text: trimming, splitting, joining and replacing, as the rules
//! for cleaning a chapter need them.

use vstd::prelude::*;

verus! {

/// Whether the character is white space.
pub open spec fn is_white_space(c: char) -> bool {
    let u = c as u32;
    ||| 0x09 <= u <= 0x0d
    ||| u == 0x20
    ||| u == 0x85
    ||| u == 0xa0
    ||| u == 0x1680
    ||| 0x2000 <= u <= 0x200a
    ||| u == 0x2028
    ||| u == 0x2029
    ||| u == 0x202f
    ||| u == 0x205f
    ||| u == 0x3000
}

/// `s` without the white space at its start.
pub open spec fn trimmed_start(s: Seq<char>) -> Seq<char>
    decreases s.len(),
{
    if s.len() > 0 && is_white_space(s[0]) {
        trimmed_start(s.drop_first())
    } else {
        s
    }
}

/// `s` without the white space at its end.
pub open spec fn trimmed_end(s: Seq<char>) -> Seq<char>
    decreases s.len(),
{
    if s.len() > 0 && is_white_space(s.last()) {
        trimmed_end(s.drop_last())
    } else {
        s
    }
}

/// `s` without the white space at its start and at its end.
pub open spec fn trimmed(s: Seq<char>) -> Seq<char> {
    trimmed_end(trimmed_start(s))
}

/// Whether the character is white space.
pub fn white_space(c: char) -> (out: bool)
    ensures
        out == is_white_space(c),
{
    let u = c as u32;
    (0x09 <= u && u <= 0x0d) || u == 0x20 || u == 0x85 || u == 0xa0 || u == 0x1680 || (0x2000 <= u
        && u <= 0x200a) || u == 0x2028 || u == 0x2029 || u == 0x202f || u == 0x205f || u == 0x3000
}

/// The part of `s` from `from` up to `to`.
pub fn slice_of(s: &Vec<char>, from: usize, to: usize) -> (out: Vec<char>)
    requires
        from <= to <= s.len(),
    ensures
        out@ == s@.subrange(from as int, to as int),
{
    let mut out: Vec<char> = Vec::new();
    let mut i: usize = from;
    while i < to
        invariant
            from <= i <= to <= s.len(),
            out@ == s@.subrange(from as int, i as int),
        decreases to - i,
    {
        out.push(s[i]);
        assert(s@.subrange(from as int, i + 1) =~= s@.subrange(from as int, i as int).push(
            s@[i as int],
        ));
        i += 1;
    }
    out
}

/// Trims white space from both ends.
pub fn trim(s: &Vec<char>) -> (out: Vec<char>)
    ensures
        out@ == trimmed(s@),
{
    let mut from: usize = 0;
    assert(s@.skip(0) =~= s@);
    while from < s.len() && white_space(s[from])
        invariant
            0 <= from <= s.len(),
            trimmed_start(s@) == trimmed_start(s@.skip(from as int)),
        decreases s.len() - from,
    {
        assert(s@.skip(from as int).drop_first() =~= s@.skip(from + 1));
        from += 1;
    }
    assert(trimmed_start(s@) == s@.skip(from as int));
    assert(s@.skip(from as int) =~= s@.subrange(from as int, s@.len() as int));
    let mut to: usize = s.len();
    while to > from && white_space(s[to - 1])
        invariant
            from <= to <= s.len(),
            trimmed(s@) == trimmed_end(s@.subrange(from as int, to as int)),
        decreases to,
    {
        assert(s@.subrange(from as int, to as int).drop_last() =~= s@.subrange(
            from as int,
            to - 1,
        ));
        to -= 1;
    }
    slice_of(s, from, to)
}

/// The pieces of a list as sequences of characters.
pub open spec fn rows(pieces: Seq<Vec<char>>) -> Seq<Seq<char>> {
    pieces.map_values(|p: Vec<char>| p@)
}

/// The pieces into which the characters of `seps` cut `s`: one more than
/// there are separators in `s`, empty ones included.
pub open spec fn split_at_any(s: Seq<char>, seps: Seq<char>) -> Seq<Seq<char>>
    decreases s.len(),
{
    if s.len() == 0 {
        seq![Seq::empty()]
    } else {
        let before = split_at_any(s.drop_last(), seps);
        if seps.contains(s.last()) {
            before.push(Seq::empty())
        } else {
            before.drop_last().push(before.last().push(s.last()))
        }
    }
}

/// Whether `c` is one of `chars`.
pub fn holds_char(chars: &Vec<char>, c: char) -> (out: bool)
    ensures
        out == chars@.contains(c),
{
    let mut i: usize = 0;
    while i < chars.len()
        invariant
            0 <= i <= chars.len(),
            forall|k: int| 0 <= k < i ==> chars@[k] != c,
        decreases chars.len() - i,
    {
        if chars[i] == c {
            return true;
        }
        i += 1;
    }
    false
}

/// Cuts `s` at every character that is one of `seps`.
pub fn split(s: &Vec<char>, seps: &Vec<char>) -> (out: Vec<Vec<char>>)
    ensures
        rows(out@) == split_at_any(s@, seps@),
{
    let mut pieces: Vec<Vec<char>> = Vec::new();
    let mut current: Vec<char> = Vec::new();
    let mut i: usize = 0;
    assert(rows(pieces@).push(current@) =~= split_at_any(s@.take(0), seps@));
    while i < s.len()
        invariant
            0 <= i <= s.len(),
            rows(pieces@).push(current@) == split_at_any(s@.take(i as int), seps@),
        decreases s.len() - i,
    {
        let ghost before = split_at_any(s@.take(i as int), seps@);
        let ghost done = rows(pieces@);
        assert(s@.take(i + 1).drop_last() =~= s@.take(i as int));
        assert(before.drop_last() =~= done);
        if holds_char(seps, s[i]) {
            pieces.push(current);
            current = Vec::new();
            assert(rows(pieces@) =~= before);
        } else {
            current.push(s[i]);
        }
        i += 1;
    }
    assert(s@.take(s@.len() as int) =~= s@);
    let ghost done = rows(pieces@);
    pieces.push(current);
    assert(rows(pieces@) =~= done.push(current@));
    pieces
}

/// The pieces trimmed, less those that are empty then.
pub open spec fn tidy(pieces: Seq<Seq<char>>) -> Seq<Seq<char>> {
    pieces.map_values(|p: Seq<char>| trimmed(p)).filter(|p: Seq<char>| p.len() > 0)
}

/// Trims every piece and drops the pieces that are empty then.
pub fn trim_and_keep(pieces: &Vec<Vec<char>>) -> (out: Vec<Vec<char>>)
    ensures
        rows(out@) == tidy(rows(pieces@)),
{
    let mut out: Vec<Vec<char>> = Vec::new();
    let mut i: usize = 0;
    let ghost keep = |p: Seq<char>| p.len() > 0;
    let ghost all = rows(pieces@).map_values(|p: Seq<char>| trimmed(p));
    proof {
        reveal(Seq::filter);
        assert(rows(out@) =~= all.take(0).filter(keep));
    }
    while i < pieces.len()
        invariant
            0 <= i <= pieces.len(),
            keep == (|p: Seq<char>| p.len() > 0),
            all == rows(pieces@).map_values(|p: Seq<char>| trimmed(p)),
            rows(out@) == all.take(i as int).filter(keep),
        decreases pieces.len() - i,
    {
        let piece = trim(&pieces[i]);
        let ghost before = rows(out@);
        proof {
            reveal(Seq::filter);
            assert(all.take(i + 1).drop_last() =~= all.take(i as int));
            assert(all.take(i + 1).last() == piece@);
        }
        if piece.len() > 0 {
            out.push(piece);
            assert(rows(out@) =~= before.push(piece@));
        }
        i += 1;
    }
    assert(all.take(all.len() as int) =~= all);
    out
}

/// The pieces after the first `n`; none, if there are no more than `n`.
pub open spec fn after_first(pieces: Seq<Seq<char>>, n: nat) -> Seq<Seq<char>> {
    if pieces.len() <= n {
        Seq::empty()
    } else {
        pieces.skip(n as int)
    }
}

/// The pieces joined, `sep` between every two.
pub open spec fn joined(pieces: Seq<Seq<char>>, sep: Seq<char>) -> Seq<char>
    decreases pieces.len(),
{
    if pieces.len() == 0 {
        Seq::empty()
    } else if pieces.len() == 1 {
        pieces[0]
    } else {
        joined(pieces.drop_last(), sep) + sep + pieces.last()
    }
}

/// Joins the pieces from the one at `from` on, `sep` between every two.
pub fn join_from(pieces: &Vec<Vec<char>>, from: usize, sep: &Vec<char>) -> (out: Vec<char>)
    ensures
        out@ == joined(after_first(rows(pieces@), from as nat), sep@),
{
    let mut out: Vec<char> = Vec::new();
    if from >= pieces.len() {
        return out;
    }
    let ghost rest = rows(pieces@).skip(from as int);
    let mut i: usize = from;
    assert(rest.take(0) =~= Seq::<Seq<char>>::empty());
    while i < pieces.len()
        invariant
            from <= i <= pieces.len(),
            rest == rows(pieces@).skip(from as int),
            out@ == joined(rest.take(i - from), sep@),
        decreases pieces.len() - i,
    {
        let ghost before = out@;
        if i > from {
            append_chars(&mut out, sep);
        }
        append_chars(&mut out, &pieces[i]);
        proof {
            let longer = rest.take(i + 1 - from);
            assert(longer.drop_last() =~= rest.take(i - from));
            assert(longer.last() == pieces@[i as int]@);
            if i == from {
                assert(out@ =~= longer[0]);
            }
        }
        i += 1;
    }
    assert(rest.take(rest.len() as int) =~= rest);
    out
}

/// Appends the characters of `more` to `out`.
pub fn append_chars(out: &mut Vec<char>, more: &Vec<char>)
    ensures
        final(out)@ == old(out)@ + more@,
{
    let mut i: usize = 0;
    while i < more.len()
        invariant
            0 <= i <= more.len(),
            out@ == old(out)@ + more@.take(i as int),
        decreases more.len() - i,
    {
        out.push(more[i]);
        assert(more@.take(i + 1) =~= more@.take(i as int).push(more@[i as int]));
        assert(out@ =~= old(out)@ + more@.take(i + 1));
        i += 1;
    }
    assert(more@.take(more@.len() as int) =~= more@);
}

/// Whether `pat` stands in `s` at `at`.
pub open spec fn occurs_at(s: Seq<char>, pat: Seq<char>, at: int) -> bool {
    &&& 0 <= at
    &&& at + pat.len() <= s.len()
    &&& s.subrange(at, at + pat.len()) == pat
}

/// Whether `pat` stands somewhere in `s`.
pub open spec fn occurs_in(s: Seq<char>, pat: Seq<char>) -> bool {
    exists|at: int| occurs_at(s, pat, at)
}

/// Whether `pat` stands in `s` at `at`.
pub fn matches_at(s: &Vec<char>, pat: &Vec<char>, at: usize) -> (out: bool)
    requires
        at <= s.len(),
    ensures
        out == occurs_at(s@, pat@, at as int),
{
    if pat.len() > s.len() - at {
        return false;
    }
    let mut i: usize = 0;
    while i < pat.len()
        invariant
            0 <= i <= pat.len(),
            at + pat.len() <= s.len(),
            forall|k: int| 0 <= k < i ==> s@[at + k] == pat@[k],
        decreases pat.len() - i,
    {
        if s[at + i] != pat[i] {
            assert(s@.subrange(at as int, at + pat.len())[i as int] != pat@[i as int]);
            return false;
        }
        i += 1;
    }
    assert(s@.subrange(at as int, at + pat.len()) =~= pat@);
    true
}

/// Whether `pat` stands somewhere in `s`.
pub fn contains(s: &Vec<char>, pat: &Vec<char>) -> (out: bool)
    ensures
        out == occurs_in(s@, pat@),
{
    let mut at: usize = 0;
    while at <= s.len()
        invariant
            0 <= at <= s.len() + 1,
            forall|k: int| 0 <= k < at ==> !occurs_at(s@, pat@, k),
        decreases s.len() + 1 - at,
    {
        if matches_at(s, pat, at) {
            return true;
        }
        if at == s.len() {
            assert forall|k: int| !occurs_at(s@, pat@, k) by {}
            return false;
        }
        at += 1;
    }
    false
}

/// `s` with every occurrence of `pat` replaced by `to`, the occurrences
/// taken from the left and not overlapping. An empty `pat` occurs nowhere.
pub open spec fn replaced(s: Seq<char>, pat: Seq<char>, to: Seq<char>) -> Seq<char>
    decreases s.len(),
{
    if s.len() == 0 || pat.len() == 0 {
        s
    } else if occurs_at(s, pat, 0) {
        to + replaced(s.skip(pat.len() as int), pat, to)
    } else {
        seq![s[0]] + replaced(s.skip(1), pat, to)
    }
}

/// Replaces every occurrence of `pat` in `s` by `to`.
pub fn replace(s: &Vec<char>, pat: &Vec<char>, to: &Vec<char>) -> (out: Vec<char>)
    ensures
        out@ == replaced(s@, pat@, to@),
{
    let mut out: Vec<char> = Vec::new();
    if pat.len() == 0 {
        append_chars(&mut out, s);
        assert(out@ =~= s@);
        return out;
    }
    let mut i: usize = 0;
    assert(s@.skip(0) =~= s@);
    while i < s.len()
        invariant
            0 <= i <= s.len(),
            pat.len() > 0,
            out@ + replaced(s@.skip(i as int), pat@, to@) == replaced(s@, pat@, to@),
        decreases s.len() - i,
    {
        let ghost rest = s@.skip(i as int);
        let ghost before = out@;
        if matches_at(s, pat, i) {
            assert(rest.subrange(0, pat.len() as int) =~= s@.subrange(
                i as int,
                i + pat.len(),
            ));
            assert(rest.skip(pat.len() as int) =~= s@.skip(i + pat.len()));
            append_chars(&mut out, to);
            assert(out@ + replaced(s@.skip(i + pat.len()), pat@, to@) =~= before + replaced(
                rest,
                pat@,
                to@,
            ));
            i += pat.len();
        } else {
            assert(!occurs_at(rest, pat@, 0)) by {
                if occurs_at(rest, pat@, 0) {
                    assert(rest.subrange(0, pat.len() as int) =~= s@.subrange(
                        i as int,
                        i + pat.len(),
                    ));
                }
            }
            assert(rest.skip(1) =~= s@.skip(i + 1));
            out.push(s[i]);
            assert(out@ + replaced(s@.skip(i + 1), pat@, to@) =~= before + replaced(
                rest,
                pat@,
                to@,
            ));
            i += 1;
        }
    }
    assert(s@.skip(s@.len() as int) =~= Seq::<char>::empty());
    assert(out@ + Seq::<char>::empty() =~= out@);
    out
}

/// `s` without the characters that are among `drop`.
pub open spec fn without_chars(s: Seq<char>, drop: Seq<char>) -> Seq<char> {
    s.filter(|c: char| !drop.contains(c))
}

/// Removes from `s` every character that is among `drop`.
pub fn remove_chars(s: &Vec<char>, drop: &Vec<char>) -> (out: Vec<char>)
    ensures
        out@ == without_chars(s@, drop@),
{
    let mut out: Vec<char> = Vec::new();
    let mut i: usize = 0;
    let ghost keep = |c: char| !drop@.contains(c);
    proof {
        reveal(Seq::filter);
        assert(s@.take(0).filter(keep) =~= Seq::<char>::empty());
    }
    while i < s.len()
        invariant
            0 <= i <= s.len(),
            keep == (|c: char| !drop@.contains(c)),
            out@ == s@.take(i as int).filter(keep),
        decreases s.len() - i,
    {
        proof {
            reveal(Seq::filter);
            assert(s@.take(i + 1).drop_last() =~= s@.take(i as int));
        }
        if !holds_char(drop, s[i]) {
            out.push(s[i]);
        }
        i += 1;
    }
    assert(s@.take(s@.len() as int) =~= s@);
    out
}

/// The pieces into which the occurrences of `pat` cut `s`, the occurrences
/// taken from the left and not overlapping. An empty `pat` cuts nothing.
pub open spec fn split_at_each(s: Seq<char>, pat: Seq<char>) -> Seq<Seq<char>>
    decreases s.len(),
{
    if s.len() == 0 || pat.len() == 0 {
        seq![s]
    } else if occurs_at(s, pat, 0) {
        seq![Seq::empty()] + split_at_each(s.skip(pat.len() as int), pat)
    } else {
        let rest = split_at_each(s.skip(1), pat);
        seq![seq![s[0]] + rest[0]] + rest.drop_first()
    }
}

/// Cutting yields at least one piece.
pub proof fn lemma_split_at_each_len(s: Seq<char>, pat: Seq<char>)
    ensures
        split_at_each(s, pat).len() >= 1,
    decreases s.len(),
{
    if s.len() == 0 || pat.len() == 0 {
    } else if occurs_at(s, pat, 0) {
        lemma_split_at_each_len(s.skip(pat.len() as int), pat);
    } else {
        lemma_split_at_each_len(s.skip(1), pat);
    }
}

/// Cuts `s` at every occurrence of `pat`.
pub fn split_at(s: &Vec<char>, pat: &Vec<char>) -> (out: Vec<Vec<char>>)
    ensures
        rows(out@) == split_at_each(s@, pat@),
{
    let mut pieces: Vec<Vec<char>> = Vec::new();
    let mut current: Vec<char> = Vec::new();
    if pat.len() == 0 {
        append_chars(&mut current, s);
        pieces.push(current);
        assert(rows(pieces@) =~= seq![s@]);
        return pieces;
    }
    let mut i: usize = 0;
    proof {
        assert(s@.skip(0) =~= s@);
        lemma_split_at_each_len(s@, pat@);
        let all = split_at_each(s@, pat@);
        assert(rows(pieces@) + seq![current@ + all[0]] + all.drop_first() =~= all);
    }
    while i < s.len()
        invariant
            0 <= i <= s.len(),
            pat.len() > 0,
            rows(pieces@) + seq![current@ + split_at_each(s@.skip(i as int), pat@)[0]]
                + split_at_each(s@.skip(i as int), pat@).drop_first() == split_at_each(s@, pat@),
        decreases s.len() - i,
    {
        let ghost rest = s@.skip(i as int);
        let ghost done = rows(pieces@);
        let ghost held = current@;
        if matches_at(s, pat, i) {
            proof {
                assert(rest.subrange(0, pat.len() as int) =~= s@.subrange(
                    i as int,
                    i + pat.len(),
                ));
                assert(rest.skip(pat.len() as int) =~= s@.skip(i + pat.len()));
                lemma_split_at_each_len(s@.skip(i + pat.len()), pat@);
            }
            pieces.push(current);
            current = Vec::new();
            proof {
                let next = split_at_each(s@.skip(i + pat.len()), pat@);
                assert(rows(pieces@) =~= done.push(held));
                assert(held + Seq::<char>::empty() =~= held);
                assert(current@ + next[0] =~= next[0]);
                assert(rows(pieces@) + seq![current@ + next[0]] + next.drop_first() =~= done
                    + seq![held + split_at_each(rest, pat@)[0]] + split_at_each(
                    rest,
                    pat@,
                ).drop_first());
            }
            i += pat.len();
        } else {
            proof {
                assert(!occurs_at(rest, pat@, 0)) by {
                    if occurs_at(rest, pat@, 0) {
                        assert(rest.subrange(0, pat.len() as int) =~= s@.subrange(
                            i as int,
                            i + pat.len(),
                        ));
                    }
                }
                assert(rest.skip(1) =~= s@.skip(i + 1));
                lemma_split_at_each_len(s@.skip(i + 1), pat@);
            }
            current.push(s[i]);
            proof {
                let next = split_at_each(s@.skip(i + 1), pat@);
                assert(current@ + next[0] =~= held + (seq![s@[i as int]] + next[0]));
                assert(rows(pieces@) + seq![current@ + next[0]] + next.drop_first() =~= done
                    + seq![held + split_at_each(rest, pat@)[0]] + split_at_each(
                    rest,
                    pat@,
                ).drop_first());
            }
            i += 1;
        }
    }
    proof {
        assert(s@.skip(s@.len() as int) =~= Seq::<char>::empty());
        assert(current@ + Seq::<char>::empty() =~= current@);
    }
    let ghost done = rows(pieces@);
    pieces.push(current);
    assert(rows(pieces@) =~= done.push(current@));
    assert(rows(pieces@) =~= split_at_each(s@, pat@));
    pieces
}

/// The pieces of `s` that end with `sep` each, and what follows the last
/// `sep`, if anything does.
pub open spec fn split_after(s: Seq<char>, sep: char) -> Seq<Seq<char>>
    decreases s.len(),
{
    if s.len() == 0 {
        Seq::empty()
    } else {
        let before = split_after(s.drop_last(), sep);
        if s.len() >= 2 && s[s.len() - 2] != sep && before.len() > 0 {
            before.drop_last().push(before.last().push(s.last()))
        } else {
            before.push(seq![s.last()])
        }
    }
}

/// Cuts `s` behind every `sep`.
pub fn split_inclusive(s: &Vec<char>, sep: char) -> (out: Vec<Vec<char>>)
    ensures
        rows(out@) == split_after(s@, sep),
{
    let mut pieces: Vec<Vec<char>> = Vec::new();
    let mut current: Vec<char> = Vec::new();
    let mut i: usize = 0;
    assert(rows(pieces@) =~= split_after(s@.take(0), sep));
    while i < s.len()
        invariant
            0 <= i <= s.len(),
            current.len() == 0 <==> (i == 0 || s@[i - 1] == sep),
            current.len() == 0 ==> rows(pieces@) == split_after(s@.take(i as int), sep),
            current.len() > 0 ==> rows(pieces@).push(current@) == split_after(
                s@.take(i as int),
                sep,
            ),
        decreases s.len() - i,
    {
        let ghost before = split_after(s@.take(i as int), sep);
        let ghost done = rows(pieces@);
        let ghost held = current@;
        proof {
            let longer = s@.take(i + 1);
            assert(longer.drop_last() =~= s@.take(i as int));
            assert(longer.last() == s@[i as int]);
            if i >= 1 {
                assert(longer[longer.len() - 2] == s@[i - 1]);
            }
            if held.len() > 0 {
                assert(before.drop_last() =~= done);
                assert(before.last() == held);
            }
        }
        current.push(s[i]);
        proof {
            let longer = s@.take(i + 1);
            if held.len() == 0 {
                assert(current@ =~= seq![s@[i as int]]);
                assert(split_after(longer, sep) == before.push(seq![longer.last()]));
            } else {
                assert(longer.len() >= 2 && longer[longer.len() - 2] != sep);
                assert(split_after(longer, sep) == before.drop_last().push(
                    before.last().push(longer.last()),
                ));
            }
        }
        assert(rows(pieces@).push(current@) =~= split_after(s@.take(i + 1), sep));
        if s[i] == sep {
            pieces.push(current);
            current = Vec::new();
            assert(rows(pieces@) =~= split_after(s@.take(i + 1), sep));
        }
        i += 1;
    }
    assert(s@.take(s@.len() as int) =~= s@);
    if current.len() > 0 {
        let ghost done = rows(pieces@);
        pieces.push(current);
        assert(rows(pieces@) =~= done.push(current@));
    }
    pieces
}

} // verus!
