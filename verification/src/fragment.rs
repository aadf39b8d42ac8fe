//! The fragment of a URL, read as `key=value` pairs separated by `&`.

use crate::text::{
    chars_of, find_char, join, lemma_position, lemma_position_slice, lemma_split_first,
    lemma_split_join, matches_at, position, slice_of, split,
};
use vstd::prelude::*;

verus! {

/// What follows the first `#` of `url`; `None` for a URL without one.
pub open spec fn fragment_of(url: Seq<char>) -> Option<Seq<char>> {
    let hash = position(url, '#', 0);
    if 0 <= hash < url.len() {
        Some(url.subrange(hash + 1, url.len() as int))
    } else {
        None
    }
}

/// The value of `piece` where it is a pair with the key `key`: the pair is
/// split at its first `=`. `None` for another key and for a piece without `=`.
pub open spec fn pair_value(piece: Seq<char>, key: Seq<char>) -> Option<Seq<char>> {
    let eq = position(piece, '=', 0);
    if 0 <= eq < piece.len() && piece.subrange(0, eq) == key {
        Some(piece.subrange(eq + 1, piece.len() as int))
    } else {
        None
    }
}

/// The value of the last of `pieces` that is a pair with the key `key`.
pub open spec fn last_value(pieces: Seq<Seq<char>>, key: Seq<char>) -> Option<Seq<char>>
    decreases pieces.len(),
{
    if pieces.len() == 0 {
        None
    } else {
        match pair_value(pieces.last(), key) {
            Some(value) => Some(value),
            None => last_value(pieces.drop_last(), key),
        }
    }
}

/// The value that `key` has among the pairs of `fragment`, which `&`
/// separates; a later pair wins over an earlier one with the same key.
pub open spec fn fragment_value(fragment: Seq<char>, key: Seq<char>) -> Option<Seq<char>> {
    last_value(split(fragment, '&'), key)
}

/// The value that `key` has in the fragment of `url`.
pub open spec fn url_fragment_value(url: Seq<char>, key: Seq<char>) -> Option<Seq<char>> {
    match fragment_of(url) {
        Some(fragment) => fragment_value(fragment, key),
        None => None,
    }
}

/// `later` where there is one, else `earlier`.
pub open spec fn or_earlier(later: Option<Seq<char>>, earlier: Option<Seq<char>>) -> Option<
    Seq<char>,
> {
    match later {
        Some(value) => Some(value),
        None => earlier,
    }
}

/// The last value among `head` followed by `rest` is the last value of
/// `rest`, or else that of `head`.
pub proof fn lemma_last_value_concat(head: Seq<Seq<char>>, rest: Seq<Seq<char>>, key: Seq<char>)
    ensures
        last_value(head + rest, key) == or_earlier(last_value(rest, key), last_value(head, key)),
    decreases rest.len(),
{
    if rest.len() == 0 {
        assert(head + rest =~= head);
    } else {
        assert((head + rest).last() == rest.last());
        assert((head + rest).drop_last() =~= head + rest.drop_last());
        lemma_last_value_concat(head, rest.drop_last(), key);
    }
}

/// The last value of a single piece is its pair value.
pub proof fn lemma_last_value_single(piece: Seq<char>, key: Seq<char>)
    ensures
        last_value(seq![piece], key) == pair_value(piece, key),
{
    assert(seq![piece].last() == piece);
    assert(seq![piece].drop_last() =~= Seq::<Seq<char>>::empty());
    assert(last_value(Seq::<Seq<char>>::empty(), key) is None);
}

/// Where exactly one of `pieces` is a pair with the key `key`, its value is
/// the last value, whatever its place among the pieces.
pub proof fn lemma_last_value_of_only_pair(
    pieces: Seq<Seq<char>>,
    key: Seq<char>,
    value: Seq<char>,
    at: int,
)
    requires
        0 <= at < pieces.len(),
        pair_value(pieces[at], key) == Some(value),
        forall|i: int| 0 <= i < pieces.len() && i != at ==> pair_value(pieces[i], key) is None,
    ensures
        last_value(pieces, key) == Some(value),
    decreases pieces.len(),
{
    if at < pieces.len() - 1 {
        lemma_last_value_of_only_pair(pieces.drop_last(), key, value, at);
    }
}

/// The value of a key does not depend on where its pair stands: where
/// exactly one of the pieces of `fragment` is a pair with the key `key`, the
/// fragment gives that pair's value.
pub proof fn lemma_value_at_any_position(
    fragment: Seq<char>,
    key: Seq<char>,
    value: Seq<char>,
    at: int,
)
    requires
        0 <= at < split(fragment, '&').len(),
        pair_value(split(fragment, '&')[at], key) == Some(value),
        forall|i: int|
            0 <= i < split(fragment, '&').len() && i != at ==> pair_value(
                split(fragment, '&')[i],
                key,
            ) is None,
    ensures
        fragment_value(fragment, key) == Some(value),
{
    lemma_last_value_of_only_pair(split(fragment, '&'), key, value, at);
}

/// Pieces without `&`, joined with `&` into a fragment, give the value of
/// the one pair among them that has the key `key`, wherever it stands.
pub proof fn lemma_value_in_joined_pairs(
    pieces: Seq<Seq<char>>,
    key: Seq<char>,
    value: Seq<char>,
    at: int,
)
    requires
        0 <= at < pieces.len(),
        forall|p: int, i: int|
            0 <= p < pieces.len() && 0 <= i < pieces[p].len() ==> pieces[p][i] != '&',
        pair_value(pieces[at], key) == Some(value),
        forall|i: int| 0 <= i < pieces.len() && i != at ==> pair_value(pieces[i], key) is None,
    ensures
        fragment_value(join(pieces, seq!['&']), key) == Some(value),
{
    lemma_split_join(pieces, '&');
    lemma_last_value_of_only_pair(pieces, key, value, at);
}

/// The order of the pairs does not matter: pieces without `&`, of which
/// exactly one is a pair with the key `key`, give the same value when they
/// are joined in another order. `order[i]` is the place in `pieces` of the
/// piece that stands at `i` in `shuffled`.
pub proof fn lemma_order_independent(
    pieces: Seq<Seq<char>>,
    shuffled: Seq<Seq<char>>,
    order: Seq<int>,
    key: Seq<char>,
    value: Seq<char>,
    at: int,
    to: int,
)
    requires
        0 <= at < pieces.len(),
        forall|p: int, i: int|
            0 <= p < pieces.len() && 0 <= i < pieces[p].len() ==> pieces[p][i] != '&',
        pair_value(pieces[at], key) == Some(value),
        forall|i: int| 0 <= i < pieces.len() && i != at ==> pair_value(pieces[i], key) is None,
        shuffled.len() == pieces.len(),
        order.len() == pieces.len(),
        forall|i: int| 0 <= i < order.len() ==> 0 <= #[trigger] order[i] < pieces.len(),
        forall|i: int| 0 <= i < order.len() ==> #[trigger] shuffled[i] == pieces[order[i]],
        forall|i: int, j: int| 0 <= i < j < order.len() ==> order[i] != order[j],
        0 <= to < order.len(),
        order[to] == at,
    ensures
        fragment_value(join(shuffled, seq!['&']), key) == Some(value),
        fragment_value(join(shuffled, seq!['&']), key) == fragment_value(
            join(pieces, seq!['&']),
            key,
        ),
{
    lemma_value_in_joined_pairs(pieces, key, value, at);
    assert forall|p: int, i: int|
        0 <= p < shuffled.len() && 0 <= i < shuffled[p].len() implies shuffled[p][i] != '&' by {
        assert(shuffled[p] == pieces[order[p]]);
    }
    assert(shuffled[to] == pieces[order[to]]);
    assert forall|i: int| 0 <= i < shuffled.len() && i != to implies pair_value(shuffled[i], key)
        is None by {
        assert(shuffled[i] == pieces[order[i]]);
        if i < to {
            assert(order[i] != order[to]);
        } else {
            assert(order[to] != order[i]);
        }
    }
    lemma_value_in_joined_pairs(shuffled, key, value, to);
}

/// Among pairs with the same key the last one wins.
pub proof fn lemma_later_pair_wins(pieces: Seq<Seq<char>>, key: Seq<char>, at: int)
    requires
        0 <= at < pieces.len(),
        pair_value(pieces[at], key) is Some,
        forall|i: int| at < i < pieces.len() ==> pair_value(pieces[i], key) is None,
    ensures
        last_value(pieces, key) == pair_value(pieces[at], key),
    decreases pieces.len(),
{
    if at < pieces.len() - 1 {
        lemma_later_pair_wins(pieces.drop_last(), key, at);
    }
}

/// The range of the value of the piece `text[from..to]` where that piece is a
/// pair with the key `key`.
fn pair_range(text: &Vec<char>, key: &Vec<char>, from: usize, to: usize) -> (r: Option<
    (usize, usize),
>)
    requires
        from <= to <= text.len(),
    ensures
        match r {
            Some((a, b)) => from <= a <= b == to && pair_value(
                text@.subrange(from as int, to as int),
                key@,
            ) == Some(text@.subrange(a as int, b as int)),
            None => pair_value(text@.subrange(from as int, to as int), key@) is None,
        },
{
    let eq = find_char(text, '=', from);
    let ghost piece = text@.subrange(from as int, to as int);
    proof {
        lemma_position_slice(text@, '=', from as int, to as int);
    }
    if eq >= to {
        return None;
    }
    assert(position(piece, '=', 0) == eq - from);
    if eq - from == key.len() && matches_at(text, key, from) {
        assert(piece.subrange(0, eq - from) =~= text@.subrange(from as int, from + key.len()));
        assert(piece.subrange(eq - from + 1, piece.len() as int) =~= text@.subrange(
            eq + 1,
            to as int,
        ));
        Some((eq + 1, to))
    } else {
        proof {
            if eq - from == key.len() {
                assert(piece.subrange(0, eq - from) =~= text@.subrange(
                    from as int,
                    from + key.len(),
                ));
            } else {
                assert(piece.subrange(0, eq - from).len() != key@.len());
            }
        }
        None
    }
}

/// The range of the value that `key` has among the pairs of
/// `text[start..]`.
fn value_range(text: &Vec<char>, key: &Vec<char>, start: usize) -> (r: Option<(usize, usize)>)
    requires
        start <= text.len(),
    ensures
        match r {
            Some((a, b)) => start <= a <= b <= text.len() && fragment_value(
                text@.subrange(start as int, text.len() as int),
                key@,
            ) == Some(text@.subrange(a as int, b as int)),
            None => fragment_value(text@.subrange(start as int, text.len() as int), key@)
                is None,
        },
{
    let ghost whole = text@.subrange(start as int, text.len() as int);
    let mut from: usize = start;
    let mut found: Option<(usize, usize)> = None;
    loop
        invariant
            start <= from <= text.len(),
            whole == text@.subrange(start as int, text.len() as int),
            match found {
                Some((a, b)) => start <= a <= b <= text.len() && fragment_value(whole, key@)
                    == or_earlier(
                    fragment_value(text@.subrange(from as int, text.len() as int), key@),
                    Some(text@.subrange(a as int, b as int)),
                ),
                None => fragment_value(whole, key@) == fragment_value(
                    text@.subrange(from as int, text.len() as int),
                    key@,
                ),
            },
        ensures
            match found {
                Some((a, b)) => start <= a <= b <= text.len() && fragment_value(whole, key@)
                    == Some(text@.subrange(a as int, b as int)),
                None => fragment_value(whole, key@) is None,
            },
        decreases text.len() - from,
    {
        let ghost rest = text@.subrange(from as int, text.len() as int);
        let to = find_char(text, '&', from);
        let here = pair_range(text, key, from, to);
        proof {
            lemma_position_slice(text@, '&', from as int, text.len() as int);
            let piece = text@.subrange(from as int, to as int);
            if to < text.len() {
                lemma_split_first(rest, '&', to - from);
                assert(rest.subrange(0, to - from) =~= piece);
                assert(rest.subrange(to - from + 1, rest.len() as int) =~= text@.subrange(
                    to + 1,
                    text.len() as int,
                ));
                lemma_last_value_concat(
                    seq![piece],
                    split(text@.subrange(to + 1, text.len() as int), '&'),
                    key@,
                );
                lemma_last_value_single(piece, key@);
            } else {
                assert(rest =~= piece);
                lemma_last_value_single(piece, key@);
            }
        }
        if here.is_some() {
            found = here;
        }
        if to == text.len() {
            break;
        }
        from = to + 1;
    }
    found
}

/// The value that `key` has in the fragment of `url`.
pub fn fragment_lookup(url: &str, key: &str) -> (r: Option<String>)
    ensures
        match r {
            Some(value) => url_fragment_value(url@, key@) == Some(value@),
            None => url_fragment_value(url@, key@) is None,
        },
{
    let text = chars_of(url);
    let name = chars_of(key);
    let hash = find_char(&text, '#', 0);
    proof {
        lemma_position(text@, '#', 0);
    }
    if hash >= text.len() {
        return None;
    }
    match value_range(&text, &name, hash + 1) {
        Some((a, b)) => Some(slice_of(url, a, b)),
        None => None,
    }
}

} // verus!
