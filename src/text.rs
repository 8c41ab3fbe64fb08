//! Character-level helpers shared by the parsers and formatters.

use vstd::prelude::*;
use vstd::string::*;

verus! {

/// The characters of `s`, in order.
pub fn chars_of(s: &str) -> (r: Vec<char>)
    ensures
        r@ == s@,
{
    let mut r: Vec<char> = Vec::new();
    for c in it: s.chars()
        invariant
            r@ == it.seq().subrange(0, it.index() as int),
            it.seq() == s@,
    {
        r.push(c);
    }
    r
}

/// Whether the characters `v[lo..hi]` spell `word`.
pub fn range_is(v: &Vec<char>, lo: usize, hi: usize, word: &str) -> (r: bool)
    requires
        lo <= hi <= v@.len(),
    ensures
        r == (v@.subrange(lo as int, hi as int) == word@),
{
    let n = word.unicode_len();
    if hi - lo != n {
        return false;
    }
    let mut i: usize = 0;
    while i < n
        invariant
            i <= n,
            n == word@.len(),
            hi - lo == n,
            lo <= hi <= v@.len(),
            forall|j: int| 0 <= j < i ==> v@[lo + j] == word@[j],
        decreases n - i,
    {
        if v[lo + i] != word.get_char(i) {
            assert(v@.subrange(lo as int, hi as int)[i as int] != word@[i as int]);
            return false;
        }
        i = i + 1;
    }
    assert(v@.subrange(lo as int, hi as int) =~= word@);
    true
}


/// The position of the first `c` in `s` at or after `i`, or the length of `s`
/// when there is none.
pub open spec fn find_from(s: Seq<char>, c: char, i: int) -> int
    decreases s.len() - i,
{
    if i >= s.len() {
        s.len() as int
    } else if s[i] == c {
        i
    } else {
        find_from(s, c, i + 1)
    }
}

/// The position of the first `c` in `s`, or the length of `s` when there is none.
pub open spec fn find(s: Seq<char>, c: char) -> int {
    find_from(s, c, 0)
}

/// The part of `s` before its first space, and what follows that space if there is one.
pub open spec fn split_word(s: Seq<char>) -> (Seq<char>, Option<Seq<char>>) {
    let p = find(s, ' ');
    if p < s.len() {
        (s.subrange(0, p), Some(s.subrange(p + 1, s.len() as int)))
    } else {
        (s, None)
    }
}

/// The pieces of `s` between the occurrences of `c`; there is always at least one.
pub open spec fn split_on(s: Seq<char>, c: char) -> Seq<Seq<char>>
    decreases s.len(),
{
    if s.len() == 0 {
        seq![Seq::<char>::empty()]
    } else {
        let rest = split_on(s.drop_last(), c);
        if s.last() == c {
            rest.push(Seq::<char>::empty())
        } else {
            rest.update(rest.len() - 1, rest.last().push(s.last()))
        }
    }
}

/// The pieces `ws` with `sep` between each two of them.
pub open spec fn joined(ws: Seq<Seq<char>>, sep: Seq<char>) -> Seq<char>
    decreases ws.len(),
{
    if ws.len() == 0 {
        Seq::<char>::empty()
    } else if ws.len() == 1 {
        ws[0]
    } else {
        joined(ws.drop_last(), sep) + sep + ws.last()
    }
}

/// No piece of `ws` holds `c`.
pub open spec fn pieces_free_of(ws: Seq<Seq<char>>, c: char) -> bool {
    forall|i: int| 0 <= i < ws.len() ==> !(#[trigger] ws[i]).contains(c)
}

pub proof fn lemma_find_from_bounds(s: Seq<char>, c: char, i: int)
    requires
        0 <= i <= s.len(),
    ensures
        i <= find_from(s, c, i) <= s.len(),
        find_from(s, c, i) < s.len() ==> s[find_from(s, c, i)] == c,
        forall|j: int| i <= j < find_from(s, c, i) ==> s[j] != c,
    decreases s.len() - i,
{
    if i < s.len() && s[i] != c {
        lemma_find_from_bounds(s, c, i + 1);
    }
}

/// Where `s` holds no `c` from `i` on, the search runs to the end.
pub proof fn lemma_find_from_absent(s: Seq<char>, c: char, i: int)
    requires
        0 <= i <= s.len(),
        forall|j: int| i <= j < s.len() ==> s[j] != c,
    ensures
        find_from(s, c, i) == s.len(),
    decreases s.len() - i,
{
    if i < s.len() {
        lemma_find_from_absent(s, c, i + 1);
    }
}

/// The first `c` of `h + [c] + t` is the one after `h`, when `h` holds none.
pub proof fn lemma_find_after_prefix(h: Seq<char>, c: char, t: Seq<char>, i: int)
    requires
        0 <= i <= h.len(),
        !h.contains(c),
    ensures
        find_from(h + seq![c] + t, c, i) == h.len(),
    decreases h.len() - i,
{
    let s = h + seq![c] + t;
    if i < h.len() {
        assert(s[i] == h[i]);
        if h[i] == c {
            assert(h.contains(c));
        }
        lemma_find_after_prefix(h, c, t, i + 1);
    } else {
        assert(s[i] == c);
    }
}

/// A word without spaces followed by a space and `t` splits into the two.
pub proof fn lemma_split_word(h: Seq<char>, t: Seq<char>)
    requires
        !h.contains(' '),
    ensures
        split_word(h + seq![' '] + t) == (h, Some(t)),
        split_word(h) == (h, None::<Seq<char>>),
{
    let s = h + seq![' '] + t;
    lemma_find_after_prefix(h, ' ', t, 0);
    assert(s.subrange(0, h.len() as int) =~= h);
    assert(s.subrange(h.len() as int + 1, s.len() as int) =~= t);
    assert forall|j: int| 0 <= j < h.len() implies h[j] != ' ' by {
        if h[j] == ' ' {
            assert(h.contains(' '));
        }
    }
    lemma_find_from_absent(h, ' ', 0);
}

/// Adding `c` at the end of `s` starts a new, empty piece.
pub proof fn lemma_split_push_sep(s: Seq<char>, c: char)
    ensures
        split_on(s.push(c), c) == split_on(s, c).push(Seq::<char>::empty()),
{
    assert(s.push(c).drop_last() =~= s);
}

pub proof fn lemma_split_len(s: Seq<char>, c: char)
    ensures
        split_on(s, c).len() >= 1,
    decreases s.len(),
{
    if s.len() > 0 {
        lemma_split_len(s.drop_last(), c);
    }
}

/// Adding text without `c` at the end of `s` extends the last piece.
pub proof fn lemma_split_extend(s: Seq<char>, t: Seq<char>, c: char)
    requires
        !t.contains(c),
    ensures
        split_on(s + t, c) == split_on(s, c).update(
            split_on(s, c).len() - 1,
            split_on(s, c).last() + t,
        ),
    decreases t.len(),
{
    lemma_split_len(s, c);
    if t.len() == 0 {
        assert(s + t =~= s);
        assert(split_on(s, c).last() + t =~= split_on(s, c).last());
        assert(split_on(s, c).update(split_on(s, c).len() - 1, split_on(s, c).last() + t)
            =~= split_on(s, c));
    } else {
        let t0 = t.drop_last();
        assert(!t0.contains(c)) by {
            if t0.contains(c) {
                let j = choose|j: int| 0 <= j < t0.len() && t0[j] == c;
                assert(t[j] == c);
            }
        }
        lemma_split_extend(s, t0, c);
        assert((s + t).drop_last() =~= s + t0);
        assert(t.last() != c) by {
            assert(t[t.len() - 1] == t.last());
        }
        lemma_split_len(s + t0, c);
        assert(split_on(s, c).last() + t0 + seq![t.last()] =~= split_on(s, c).last() + t);
        assert((split_on(s, c).last() + t0).push(t.last()) =~= split_on(s, c).last() + t);
        assert(split_on(s + t, c) =~= split_on(s, c).update(
            split_on(s, c).len() - 1,
            split_on(s, c).last() + t,
        ));
    }
}

/// Splitting the joined pieces gives the pieces back, when there is at least one
/// and none holds the separator.
pub proof fn lemma_split_join(ws: Seq<Seq<char>>, c: char)
    requires
        ws.len() >= 1,
        pieces_free_of(ws, c),
    ensures
        split_on(joined(ws, seq![c]), c) == ws,
    decreases ws.len(),
{
    if ws.len() == 1 {
        lemma_split_extend(Seq::<char>::empty(), ws[0], c);
        assert(Seq::<char>::empty() + ws[0] =~= ws[0]);
        assert(split_on(Seq::<char>::empty(), c) == seq![Seq::<char>::empty()]);
        assert(split_on(ws[0], c) =~= ws);
    } else {
        let front = ws.drop_last();
        assert(pieces_free_of(front, c)) by {
            assert forall|i: int| 0 <= i < front.len() implies !(#[trigger] front[i]).contains(c) by {
                assert(front[i] == ws[i]);
            }
        }
        lemma_split_join(front, c);
        let j = joined(front, seq![c]);
        assert(!ws.last().contains(c)) by {
            assert(ws[ws.len() - 1] == ws.last());
        }
        lemma_split_push_sep(j, c);
        assert(j + seq![c] =~= j.push(c));
        lemma_split_extend(j + seq![c], ws.last(), c);
        assert(split_on(joined(ws, seq![c]), c) =~= ws);
    }
}


/// The text of `line` from character `lo` up to character `hi`.
pub fn piece(line: &str, lo: usize, hi: usize) -> (r: String)
    requires
        lo <= hi <= line@.len(),
    ensures
        r@ == line@.subrange(lo as int, hi as int),
{
    String::from_str(line.substring_char(lo, hi))
}

/// The position of the first `c` in `v[lo..hi]`, or `hi` when there is none.
pub fn find_char(v: &Vec<char>, c: char, lo: usize, hi: usize) -> (r: usize)
    requires
        lo <= hi <= v@.len(),
    ensures
        r == lo + find(v@.subrange(lo as int, hi as int), c),
        lo <= r <= hi,
{
    let ghost sub = v@.subrange(lo as int, hi as int);
    let mut i = lo;
    while i < hi
        invariant
            lo <= i <= hi <= v@.len(),
            sub == v@.subrange(lo as int, hi as int),
            find(sub, c) == find_from(sub, c, i - lo),
        decreases hi - i,
    {
        if v[i] == c {
            assert(sub[i - lo] == c);
            return i;
        }
        assert(sub[i - lo] != c);
        i = i + 1;
    }
    i
}

/// The bounds of the pieces of `v[lo..hi]` between the occurrences of `c`.
pub fn split_bounds(v: &Vec<char>, lo: usize, hi: usize, c: char) -> (r: Vec<(usize, usize)>)
    requires
        lo <= hi <= v@.len(),
    ensures
        r@.len() == split_on(v@.subrange(lo as int, hi as int), c).len(),
        forall|k: int|
            0 <= k < r@.len() ==> lo <= (#[trigger] r@[k]).0 <= r@[k].1 <= hi && v@.subrange(
                r@[k].0 as int,
                r@[k].1 as int,
            ) == split_on(v@.subrange(lo as int, hi as int), c)[k],
{
    let mut r: Vec<(usize, usize)> = Vec::new();
    let mut start = lo;
    let mut i = lo;
    assert(v@.subrange(lo as int, lo as int) =~= Seq::<char>::empty());
    while i < hi
        invariant
            lo <= start <= i <= hi <= v@.len(),
            r@.len() + 1 == split_on(v@.subrange(lo as int, i as int), c).len(),
            forall|k: int|
                0 <= k < r@.len() ==> lo <= (#[trigger] r@[k]).0 <= r@[k].1 <= hi
                    && v@.subrange(r@[k].0 as int, r@[k].1 as int) == split_on(
                    v@.subrange(lo as int, i as int),
                    c,
                )[k],
            split_on(v@.subrange(lo as int, i as int), c).last() == v@.subrange(
                start as int,
                i as int,
            ),
        decreases hi - i,
    {
        let ghost before = split_on(v@.subrange(lo as int, i as int), c);
        let ghost next = v@.subrange(lo as int, i + 1);
        assert(next.drop_last() =~= v@.subrange(lo as int, i as int));
        assert(next.last() == v@[i as int]);
        if v[i] == c {
            r.push((start, i));
            start = i + 1;
            assert(v@.subrange(start as int, i + 1) =~= Seq::<char>::empty());
        } else {
            assert(v@.subrange(start as int, i + 1) =~= v@.subrange(start as int, i as int).push(
                v@[i as int],
            ));
        }
        i = i + 1;
    }
    r.push((start, hi));
    assert(v@.subrange(lo as int, i as int) == v@.subrange(lo as int, hi as int));
    r
}

/// The pieces of `line[lo..hi]` between the occurrences of `c`, as strings.
pub fn split_pieces(line: &str, v: &Vec<char>, lo: usize, hi: usize, c: char) -> (r: Vec<String>)
    requires
        lo <= hi <= v@.len(),
        v@ == line@,
    ensures
        r@.map_values(|s: String| s@) == split_on(v@.subrange(lo as int, hi as int), c),
{
    let bounds = split_bounds(v, lo, hi, c);
    let mut r: Vec<String> = Vec::new();
    let mut k: usize = 0;
    while k < bounds.len()
        invariant
            k <= bounds@.len(),
            v@ == line@,
            lo <= hi <= v@.len(),
            bounds@.len() == split_on(v@.subrange(lo as int, hi as int), c).len(),
            forall|j: int|
                0 <= j < bounds@.len() ==> lo <= (#[trigger] bounds@[j]).0 <= bounds@[j].1 <= hi
                    && v@.subrange(bounds@[j].0 as int, bounds@[j].1 as int) == split_on(
                    v@.subrange(lo as int, hi as int),
                    c,
                )[j],
            r@.len() == k,
            forall|j: int| 0 <= j < k ==> (#[trigger] r@[j])@ == split_on(
                v@.subrange(lo as int, hi as int),
                c,
            )[j],
        decreases bounds@.len() - k,
    {
        let (a, b) = bounds[k];
        assert(bounds@[k as int].0 == a && bounds@[k as int].1 == b);
        r.push(piece(line, a, b));
        k = k + 1;
    }
    assert(r@.map_values(|s: String| s@) =~= split_on(v@.subrange(lo as int, hi as int), c));
    r
}


/// Extending the last piece extends the joined text.
pub proof fn lemma_joined_extend_last(ws: Seq<Seq<char>>, sep: Seq<char>, t: Seq<char>)
    requires
        ws.len() >= 1,
    ensures
        joined(ws.update(ws.len() - 1, ws.last() + t), sep) == joined(ws, sep) + t,
{
    let u = ws.update(ws.len() - 1, ws.last() + t);
    if ws.len() == 1 {
        assert(u[0] == ws[0] + t);
    } else {
        assert(u.drop_last() =~= ws.drop_last());
        assert(u.last() == ws.last() + t);
        assert(joined(ws, sep) + t =~= joined(ws.drop_last(), sep) + sep + (ws.last() + t));
    }
}

/// Joining the pieces of `s` by the separator gives `s` back.
pub proof fn lemma_join_split(s: Seq<char>, c: char)
    ensures
        joined(split_on(s, c), seq![c]) == s,
    decreases s.len(),
{
    if s.len() == 0 {
        assert(joined(seq![Seq::<char>::empty()], seq![c]) == Seq::<char>::empty());
    } else {
        let front = s.drop_last();
        lemma_join_split(front, c);
        lemma_split_len(front, c);
        let ps = split_on(front, c);
        if s.last() == c {
            let u = ps.push(Seq::<char>::empty());
            assert(u.drop_last() =~= ps);
            assert(joined(u, seq![c]) =~= front + seq![c] + Seq::<char>::empty());
            assert(front + seq![c] + Seq::<char>::empty() =~= s);
        } else {
            lemma_joined_extend_last(ps, seq![c], seq![s.last()]);
            assert(ps.last().push(s.last()) =~= ps.last() + seq![s.last()]);
            assert(front + seq![s.last()] =~= s);
        }
    }
}


/// The pieces of a text without `x` hold no `x`.
pub proof fn lemma_split_free_of(s: Seq<char>, c: char, x: char)
    requires
        !s.contains(x) || x == c,
    ensures
        pieces_free_of(split_on(s, c), x),
    decreases s.len(),
{
    if s.len() > 0 {
        let front = s.drop_last();
        assert(!front.contains(x) || x == c) by {
            if front.contains(x) && x != c {
                let j = choose|j: int| 0 <= j < front.len() && front[j] == x;
                assert(s[j] == x);
            }
        }
        lemma_split_free_of(front, c, x);
        lemma_split_len(front, c);
        let ps = split_on(front, c);
        if s.last() != c {
            assert(s.last() != x) by {
                assert(s[s.len() - 1] == s.last());
            }
            let grown = ps.last().push(s.last());
            assert(!grown.contains(x)) by {
                if grown.contains(x) {
                    let j = choose|j: int| 0 <= j < grown.len() && grown[j] == x;
                    if j < ps.last().len() {
                        assert(ps[ps.len() - 1][j] == x);
                    }
                }
            }
            assert forall|i: int| 0 <= i < split_on(s, c).len() implies !(
            #[trigger] split_on(s, c)[i]).contains(x) by {
                if i < ps.len() - 1 {
                    assert(split_on(s, c)[i] == ps[i]);
                }
            }
        } else {
            assert forall|i: int| 0 <= i < split_on(s, c).len() implies !(
            #[trigger] split_on(s, c)[i]).contains(x) by {
                if i < ps.len() {
                    assert(split_on(s, c)[i] == ps[i]);
                }
            }
        }
    }
}


/// `s` ends with `suffix`.
pub open spec fn has_suffix(s: Seq<char>, suffix: Seq<char>) -> bool {
    s.len() >= suffix.len() && s.subrange(s.len() - suffix.len(), s.len() as int) == suffix
}

/// Whether `v` ends with `word`.
pub fn ends_with(v: &Vec<char>, word: &str) -> (r: bool)
    ensures
        r == has_suffix(v@, word@),
{
    let k = word.unicode_len();
    if k > v.len() {
        return false;
    }
    range_is(v, v.len() - k, v.len(), word)
}

/// The position of the last `c` in `s`, or -1 when there is none.
pub open spec fn rfind(s: Seq<char>, c: char) -> int
    decreases s.len(),
{
    if s.len() == 0 {
        -1
    } else if s.last() == c {
        s.len() - 1
    } else {
        rfind(s.drop_last(), c)
    }
}

pub proof fn lemma_rfind_bounds(s: Seq<char>, c: char)
    ensures
        -1 <= rfind(s, c) < s.len(),
        rfind(s, c) >= 0 ==> s[rfind(s, c)] == c,
        rfind(s, c) == -1 ==> !s.contains(c),
    decreases s.len(),
{
    if s.len() > 0 && s.last() != c {
        lemma_rfind_bounds(s.drop_last(), c);
        if rfind(s, c) == -1 && s.contains(c) {
            let j = choose|j: int| 0 <= j < s.len() && s[j] == c;
            if j < s.len() - 1 {
                assert(s.drop_last()[j] == c);
            }
        }
    }
}

/// The position just after the last `c` in `v`, or 0 when there is none.
pub fn after_last(v: &Vec<char>, c: char) -> (r: usize)
    ensures
        r == rfind(v@, c) + 1,
{
    let mut i = v.len();
    assert(v@.subrange(0, i as int) =~= v@);
    while i > 0
        invariant
            i <= v@.len(),
            rfind(v@, c) == rfind(v@.subrange(0, i as int), c),
        decreases i,
    {
        assert(v@.subrange(0, i as int).last() == v@[i - 1]);
        if v[i - 1] == c {
            return i;
        }
        assert(v@.subrange(0, i as int).drop_last() =~= v@.subrange(0, i - 1));
        i = i - 1;
    }
    0
}

/// Two consecutive dots stand somewhere in `s`.
pub open spec fn has_dot_dot(s: Seq<char>) -> bool {
    exists|i: int| 0 <= i && i + 1 < s.len() && #[trigger] s[i] == '.' && s[i + 1] == '.'
}

/// Whether two consecutive dots stand somewhere in `v`.
pub fn contains_dot_dot(v: &Vec<char>) -> (r: bool)
    ensures
        r == has_dot_dot(v@),
{
    let mut i: usize = 0;
    while i < v.len() && i + 1 < v.len()
        invariant
            i <= v@.len(),
            forall|j: int| 0 <= j < i && j + 1 < v@.len() ==> !(#[trigger] v@[j] == '.' && v@[j + 1] == '.'),
        decreases v@.len() - i,
    {
        if v[i] == '.' && v[i + 1] == '.' {
            return true;
        }
        i = i + 1;
    }
    false
}

/// Whether `v` holds `c`.
pub fn holds_char(v: &Vec<char>, c: char) -> (r: bool)
    ensures
        r == v@.contains(c),
{
    let n = v.len();
    let p = find_char(v, c, 0, n);
    proof {
        assert(v@.subrange(0, n as int) =~= v@);
        lemma_find_from_bounds(v@, c, 0);
    }
    p < n
}

} // verus!
