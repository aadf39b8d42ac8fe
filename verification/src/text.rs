//! Character-level text operations: substring search, splitting on a
//! separator and slicing, each specified over `Seq<char>`.

use vstd::prelude::*;

verus! {

/// `needle` stands in `hay` at offset `at`.
pub open spec fn occurs_at(hay: Seq<char>, needle: Seq<char>, at: int) -> bool {
    &&& 0 <= at
    &&& at + needle.len() <= hay.len()
    &&& hay.subrange(at, at + needle.len()) == needle
}

/// `needle` stands somewhere in `hay`.
pub open spec fn has_substring(hay: Seq<char>, needle: Seq<char>) -> bool {
    exists|at: int| occurs_at(hay, needle, at)
}

/// The index of the first `c` in `s` at or after `from`, or `s.len()` where
/// there is none.
pub open spec fn position(s: Seq<char>, c: char, from: int) -> int
    decreases s.len() - from,
{
    if from < 0 || from >= s.len() {
        s.len() as int
    } else if s[from] == c {
        from
    } else {
        position(s, c, from + 1)
    }
}

/// The pieces of `s` between occurrences of `sep`. There is always at least
/// one piece; an empty text has the one empty piece.
pub open spec fn split(s: Seq<char>, sep: char) -> Seq<Seq<char>>
    decreases s.len(),
{
    let p = position(s, sep, 0);
    if p < 0 || p >= s.len() {
        seq![s]
    } else {
        seq![s.subrange(0, p)] + split(s.subrange(p + 1, s.len() as int), sep)
    }
}

/// The pieces joined again, with `sep` between neighbours.
pub open spec fn join(pieces: Seq<Seq<char>>, sep: Seq<char>) -> Seq<char>
    decreases pieces.len(),
{
    if pieces.len() == 0 {
        Seq::empty()
    } else if pieces.len() == 1 {
        pieces[0]
    } else {
        join(pieces.drop_last(), sep) + sep + pieces.last()
    }
}

/// `position` lies between `from` and the end, points at `c` unless it is the
/// end, and no `c` stands before it.
pub proof fn lemma_position(s: Seq<char>, c: char, from: int)
    requires
        0 <= from <= s.len(),
    ensures
        from <= position(s, c, from) <= s.len(),
        position(s, c, from) < s.len() ==> s[position(s, c, from)] == c,
        forall|k: int| from <= k < position(s, c, from) ==> s[k] != c,
    decreases s.len() - from,
{
    if from < s.len() && s[from] != c {
        lemma_position(s, c, from + 1);
    }
}

/// An index that holds `c`, with no `c` between `from` and it, is the
/// `position`.
pub proof fn lemma_position_is(s: Seq<char>, c: char, from: int, at: int)
    requires
        0 <= from <= at <= s.len(),
        at < s.len() ==> s[at] == c,
        forall|k: int| from <= k < at ==> s[k] != c,
    ensures
        position(s, c, from) == at,
    decreases at - from,
{
    if from < at {
        lemma_position_is(s, c, from + 1, at);
    }
}

/// Searching a slice of a text is searching the text from the slice's start,
/// cut off at the slice's end.
pub proof fn lemma_position_slice(s: Seq<char>, c: char, from: int, to: int)
    requires
        0 <= from <= to <= s.len(),
    ensures
        position(s.subrange(from, to), c, 0) == if position(s, c, from) < to {
            position(s, c, from) - from
        } else {
            to - from
        },
{
    let t = s.subrange(from, to);
    lemma_position(s, c, from);
    let p = position(s, c, from);
    let q = if p < to {
        p
    } else {
        to
    };
    assert forall|k: int| 0 <= k < q - from implies t[k] != c by {
        assert(t[k] == s[k + from]);
    }
    if q < to {
        assert(t[q - from] == s[q]);
    }
    lemma_position_is(t, c, 0, q - from);
}

/// A text with a first `sep` at `at` splits into the piece before `at` and
/// the pieces of what follows it.
pub proof fn lemma_split_first(s: Seq<char>, sep: char, at: int)
    requires
        at == position(s, sep, 0),
        at < s.len(),
    ensures
        0 <= at,
        split(s, sep) == seq![s.subrange(0, at)] + split(s.subrange(at + 1, s.len() as int), sep),
        split(s, sep).len() >= 2,
{
    lemma_position(s, sep, 0);
}

/// A piece without `sep`, put behind a text and a `sep`, comes out as the
/// last piece, behind the pieces of that text.
pub proof fn lemma_split_push(head: Seq<char>, sep: char, tail: Seq<char>)
    requires
        forall|i: int| 0 <= i < tail.len() ==> tail[i] != sep,
    ensures
        split(head + seq![sep] + tail, sep) == split(head, sep).push(tail),
    decreases head.len(),
{
    let whole = head + seq![sep] + tail;
    lemma_position(head, sep, 0);
    let at = position(head, sep, 0);
    assert forall|k: int| 0 <= k < at implies whole[k] != sep by {
        assert(whole[k] == head[k]);
    }
    if at < head.len() {
        assert(whole[at] == head[at]);
        lemma_position_is(whole, sep, 0, at);
        let rest = head.subrange(at + 1, head.len() as int);
        assert(whole.subrange(0, at) =~= head.subrange(0, at));
        assert(whole.subrange(at + 1, whole.len() as int) =~= rest + seq![sep] + tail);
        lemma_split_push(rest, sep, tail);
        assert(split(head, sep) == seq![head.subrange(0, at)] + split(rest, sep));
        assert(split(whole, sep) == seq![head.subrange(0, at)] + split(
            rest + seq![sep] + tail,
            sep,
        ));
        assert(seq![head.subrange(0, at)] + split(rest, sep).push(tail) =~= (seq![
            head.subrange(0, at),
        ] + split(rest, sep)).push(tail));
    } else {
        assert(whole[at] == sep);
        lemma_position_is(whole, sep, 0, at);
        assert(whole.subrange(0, at) =~= head);
        assert(whole.subrange(at + 1, whole.len() as int) =~= tail);
        lemma_position_is(tail, sep, 0, tail.len() as int);
        assert(split(tail, sep) == seq![tail]);
        assert(split(head, sep) == seq![head]);
        assert(split(whole, sep) == seq![head] + split(tail, sep));
        assert(seq![head] + seq![tail] =~= seq![head].push(tail));
    }
}

/// Splitting undoes joining: pieces that hold no `sep`, at least one of
/// them, joined with `sep` and split again, are the same pieces.
pub proof fn lemma_split_join(pieces: Seq<Seq<char>>, sep: char)
    requires
        pieces.len() >= 1,
        forall|p: int, i: int|
            0 <= p < pieces.len() && 0 <= i < pieces[p].len() ==> pieces[p][i] != sep,
    ensures
        split(join(pieces, seq![sep]), sep) == pieces,
    decreases pieces.len(),
{
    if pieces.len() == 1 {
        let only = pieces[0];
        lemma_position_is(only, sep, 0, only.len() as int);
        assert(seq![only] =~= pieces);
    } else {
        let init = pieces.drop_last();
        let last = pieces.last();
        assert forall|p: int, i: int| 0 <= p < init.len() && 0 <= i < init[p].len() implies init[p][i]
            != sep by {
            assert(init[p] == pieces[p]);
        }
        lemma_split_join(init, sep);
        assert forall|i: int| 0 <= i < last.len() implies last[i] != sep by {
            assert(last == pieces[pieces.len() - 1]);
        }
        lemma_split_push(join(init, seq![sep]), sep, last);
        assert(init.push(last) =~= pieces);
    }
}

/// The characters of `s`, in order.
pub fn chars_of(s: &str) -> (v: Vec<char>)
    ensures
        v@ == s@,
{
    let mut v: Vec<char> = Vec::new();
    for c in it: s.chars()
        invariant
            v@ == it.seq().take(it.index() as int),
            it.seq() == s@,
    {
        v.push(c);
    }
    v
}

/// Whether `needle` stands in `hay` at offset `at`.
pub fn matches_at(hay: &Vec<char>, needle: &Vec<char>, at: usize) -> (r: bool)
    ensures
        r == occurs_at(hay@, needle@, at as int),
{
    if needle.len() > hay.len() || at > hay.len() - needle.len() {
        return false;
    }
    let mut k: usize = 0;
    while k < needle.len()
        invariant
            k <= needle.len(),
            at + needle.len() <= hay.len(),
            forall|j: int| 0 <= j < k ==> hay@[at + j] == needle@[j],
        decreases needle.len() - k,
    {
        if hay[at + k] != needle[k] {
            assert(hay@.subrange(at as int, at + needle.len())[k as int] == hay@[at + k]);
            return false;
        }
        k += 1;
    }
    assert(hay@.subrange(at as int, at + needle.len()) =~= needle@);
    true
}

/// Whether `needle` stands somewhere in `hay`. An empty `needle` stands in
/// every text.
pub fn contains(hay: &Vec<char>, needle: &Vec<char>) -> (r: bool)
    ensures
        r == has_substring(hay@, needle@),
{
    if needle.len() > hay.len() {
        return false;
    }
    let last: usize = hay.len() - needle.len();
    let mut at: usize = 0;
    while at < last
        invariant
            at <= last,
            last == hay.len() - needle.len(),
            forall|a: int| 0 <= a < at ==> !occurs_at(hay@, needle@, a),
        decreases last - at,
    {
        if matches_at(hay, needle, at) {
            return true;
        }
        at += 1;
    }
    matches_at(hay, needle, last)
}

/// The index of the first `c` in `s` at or after `from`; `s.len()` where there
/// is none.
pub fn find_char(s: &Vec<char>, c: char, from: usize) -> (p: usize)
    requires
        from <= s.len(),
    ensures
        p == position(s@, c, from as int),
        from <= p <= s.len(),
{
    let mut p: usize = from;
    while p < s.len() && s[p] != c
        invariant
            from <= p <= s.len(),
            forall|k: int| from <= k < p ==> s@[k] != c,
        decreases s.len() - p,
    {
        p += 1;
    }
    proof {
        lemma_position_is(s@, c, from as int, p as int);
    }
    p
}

/// The characters of `s` from index `from` up to, not including, `to`, as a
/// `String`.
pub fn slice_of(s: &str, from: usize, to: usize) -> (r: String)
    requires
        from <= to <= s@.len(),
    ensures
        r@ == s@.subrange(from as int, to as int),
{
    s.substring_char(from, to).to_owned()
}

} // verus!
