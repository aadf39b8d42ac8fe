//! Scraping of delimited values out of page markup: the first text that
//! stands between a fixed opening and a closing character on one line.

use crate::text::{has_substring, lemma_position, lemma_position_is, occurs_at, position};
use vstd::prelude::*;

verus! {

/// The text that a lazy capture takes where `open` stands at offset `at`: it
/// starts right behind `open`, holds at least one character, ends before the
/// first `close` that follows that character, and holds no line feed. `None`
/// where `open` does not stand at `at` or no such text follows it.
pub open spec fn capture_at(text: Seq<char>, open: Seq<char>, close: char, at: int) -> Option<
    Seq<char>,
> {
    let start = at + open.len();
    let stop = position(text, close, start + 1);
    if occurs_at(text, open, at) && stop < text.len() && position(text, '\n', start) >= stop {
        Some(text.subrange(start, stop))
    } else {
        None
    }
}

/// The capture at the first offset at or after `from` that has one.
pub open spec fn first_capture_from(text: Seq<char>, open: Seq<char>, close: char, from: int)
    -> Option<Seq<char>>
    decreases text.len() - from,
{
    if from < 0 || from >= text.len() {
        None
    } else {
        match capture_at(text, open, close, from) {
            Some(found) => Some(found),
            None => first_capture_from(text, open, close, from + 1),
        }
    }
}

/// The capture of the leftmost match of `open`, one or more characters other
/// than a line feed taken lazily, and `close`.
pub open spec fn first_capture(text: Seq<char>, open: Seq<char>, close: char) -> Option<
    Seq<char>,
> {
    first_capture_from(text, open, close, 0)
}

/// Offsets without a capture are passed over: the search from `from` is the
/// search from `to`.
pub proof fn lemma_first_capture_skips(
    text: Seq<char>,
    open: Seq<char>,
    close: char,
    from: int,
    to: int,
)
    requires
        0 <= from <= to <= text.len(),
        forall|at: int| from <= at < to ==> capture_at(text, open, close, at) is None,
    ensures
        first_capture_from(text, open, close, from) == first_capture_from(text, open, close, to),
    decreases to - from,
{
    if from < to {
        lemma_first_capture_skips(text, open, close, from + 1, to);
    }
}

/// The first match wins: where `open`, a text `captured` and `close` stand
/// behind `before`, `captured` is not empty and holds neither `close` nor a
/// line feed, and no offset inside `before` has a capture of its own, the
/// first capture is `captured`.
pub proof fn lemma_first_capture(
    text: Seq<char>,
    open: Seq<char>,
    close: char,
    before: Seq<char>,
    captured: Seq<char>,
    after: Seq<char>,
)
    requires
        text == before + open + captured + seq![close] + after,
        captured.len() > 0,
        forall|i: int| 0 <= i < captured.len() ==> captured[i] != close && captured[i] != '\n',
        forall|at: int| 0 <= at < before.len() ==> capture_at(text, open, close, at) is None,
    ensures
        first_capture(text, open, close) == Some(captured),
{
    let at = before.len() as int;
    let start = at + open.len();
    let stop = start + captured.len();
    assert(text.subrange(at, start) =~= open);
    assert(text.subrange(start, stop) =~= captured);
    assert(text[stop] == close);
    assert forall|k: int| start <= k < stop implies text[k] != close && text[k] != '\n' by {
        assert(text[k] == captured[k - start]);
    }
    lemma_position_is(text, close, start + 1, stop);
    lemma_position(text, '\n', start);
    assert(capture_at(text, open, close, at) == Some(captured));
    lemma_first_capture_skips(text, open, close, 0, at);
}

/// A text in which `open` stands nowhere has no capture.
pub proof fn lemma_no_opening_no_capture(text: Seq<char>, open: Seq<char>, close: char)
    requires
        !has_substring(text, open),
    ensures
        first_capture(text, open, close) is None,
{
    assert forall|at: int| 0 <= at < text.len() implies capture_at(text, open, close, at)
        is None by {
        assert(!occurs_at(text, open, at));
    }
    lemma_first_capture_skips(text, open, close, 0, text.len() as int);
}

/// A character that a pattern takes literally.
pub open spec fn is_plain(c: char) -> bool {
    ||| 'a' <= c <= 'z'
    ||| 'A' <= c <= 'Z'
    ||| '0' <= c <= '9'
    ||| c == '='
    ||| c == '"'
    ||| c == ':'
    ||| c == '\''
}

/// The lazy group `(.+?)` as it stands in a pattern.
pub open spec fn lazy_group() -> Seq<char> {
    seq!['(', '.', '+', '?', ')']
}

/// The literal opening of a pattern: all but the group and the closing
/// character.
pub open spec fn pattern_open(pattern: Seq<char>) -> Seq<char> {
    pattern.subrange(0, pattern.len() - 6)
}

/// The closing character of a pattern.
pub open spec fn pattern_close(pattern: Seq<char>) -> char {
    pattern.last()
}

/// `pattern` is a short literal opening of plain characters, the lazy group,
/// and one plain closing character.
pub open spec fn is_lazy_capture(pattern: Seq<char>) -> bool {
    &&& 7 <= pattern.len() <= 64
    &&& pattern.subrange(pattern.len() - 6, pattern.len() - 1) == lazy_group()
    &&& is_plain(pattern.last())
    &&& forall|i: int| 0 <= i < pattern.len() - 6 ==> is_plain(#[trigger] pattern[i])
}

/// Compiles `pattern` with `regex::Regex::new`, searches `text` with
/// `Regex::captures` and hands out what group 1 matched.
///
/// For a pattern that is a literal opening, `(.+?)` and a literal closing
/// character, the search finds the leftmost offset at which the opening is
/// followed, on the same line, by at least one character and then the closing
/// character; the lazy group ends at the first closing character it can.
#[verifier::external_body]
fn regex_first_group(pattern: &str, text: &str) -> (r: Option<String>)
    requires
        is_lazy_capture(pattern@),
    ensures
        match r {
            Some(found) => first_capture(text@, pattern_open(pattern@), pattern_close(pattern@))
                == Some(found@),
            None => first_capture(text@, pattern_open(pattern@), pattern_close(pattern@))
                is None,
        },
{
    let re = regex::Regex::new(pattern).ok()?;
    let found = re.captures(text)?;
    Some(found.get(1)?.as_str().to_string())
}

/// The opening of the hidden form value.
pub open spec fn value_open() -> Seq<char> {
    seq!['v', 'a', 'l', 'u', 'e', '=', '"']
}

/// The opening of the post target.
pub open spec fn url_post_open() -> Seq<char> {
    seq!['u', 'r', 'l', 'P', 'o', 's', 't', ':', '\'']
}

/// The first `value="<captured>"` of `html`.
pub fn find_form_value(html: &str) -> (r: Option<String>)
    ensures
        match r {
            Some(found) => first_capture(html@, value_open(), '"') == Some(found@),
            None => first_capture(html@, value_open(), '"') is None,
        },
{
    let pattern = "value=\"(.+?)\"";
    proof {
        reveal_strlit("value=\"(.+?)\"");
        assert(pattern@.subrange(pattern@.len() - 6, pattern@.len() - 1) =~= lazy_group());
        assert(pattern_open(pattern@) =~= value_open());
    }
    regex_first_group(pattern, html)
}

/// The first `urlPost:'<captured>'` of `html`.
pub fn find_url_post(html: &str) -> (r: Option<String>)
    ensures
        match r {
            Some(found) => first_capture(html@, url_post_open(), '\'') == Some(found@),
            None => first_capture(html@, url_post_open(), '\'') is None,
        },
{
    let pattern = "urlPost:'(.+?)'";
    proof {
        reveal_strlit("urlPost:'(.+?)'");
        assert(pattern@.subrange(pattern@.len() - 6, pattern@.len() - 1) =~= lazy_group());
        assert(pattern_open(pattern@) =~= url_post_open());
    }
    regex_first_group(pattern, html)
}

} // verus!
