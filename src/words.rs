//! Splitting a sentence into its words.

use vstd::prelude::*;
use vstd::string::*;
use crate::protocol::{is_whitespace, is_ws};

verus! {

/// The words of `s`: its maximal stretches of characters that are not white
/// space, in order. Read from the left, a white-space character ends the
/// current word, and any other character either extends the word just before
/// it or starts a new one.
pub open spec fn words_of(s: Seq<char>) -> Seq<Seq<char>>
    decreases s.len(),
{
    if s.len() == 0 {
        Seq::empty()
    } else {
        let w = words_of(s.drop_last());
        if is_ws(s.last()) {
            w
        } else if s.len() >= 2 && !is_ws(s[s.len() - 2]) {
            w.drop_last().push(w.last().push(s.last()))
        } else {
            w.push(seq![s.last()])
        }
    }
}

/// Splits `sentence` into its words, as `str::split_whitespace` does: no
/// word is empty or holds white space.
pub fn rustlatin(sentence: &str) -> (words: Vec<String>)
    ensures
        words@.map_values(|w: String| w@) == words_of(sentence@),
        forall|i: int|
            0 <= i < words@.len() ==> words@[i]@.len() > 0 && forall|k: int|
                0 <= k < words@[i]@.len() ==> !is_ws(#[trigger] words@[i]@[k]),
{
    let s = sentence;
    let n = s.unicode_len();
    let mut words: Vec<String> = Vec::new();
    let mut start: usize = 0;
    let mut in_word = false;
    let mut i: usize = 0;
    assert(words@.map_values(|w: String| w@) =~= words_of(s@.subrange(0, 0)));
    while i < n
        invariant
            n == s@.len(),
            start <= i <= n,
            forall|j: int|
                0 <= j < words@.len() ==> words@[j]@.len() > 0 && forall|k: int|
                    0 <= k < words@[j]@.len() ==> !is_ws(#[trigger] words@[j]@[k]),
            in_word ==> start < i && forall|k: int| start <= k < i ==> !is_ws(s@[k]),
            in_word ==> words_of(s@.subrange(0, i as int)) == words@.map_values(|w: String| w@).push(
                s@.subrange(start as int, i as int),
            ),
            !in_word ==> words_of(s@.subrange(0, i as int)) == words@.map_values(|w: String| w@),
            !in_word ==> i == 0 || is_ws(s@[i - 1]),
        decreases n - i,
    {
        let ghost ws = words@.map_values(|w: String| w@);
        let ghost pre = s@.subrange(0, i as int);
        let ghost cur = s@.subrange(start as int, i as int);
        let c = s.get_char(i);
        assert(s@.subrange(0, i + 1).drop_last() =~= pre);
        if is_whitespace(c) {
            if in_word {
                let w = String::from_str(s.substring_char(start, i));
                assert(w@ == cur);
                words.push(w);
                assert(words@.map_values(|w: String| w@) =~= ws.push(cur));
                in_word = false;
            }
        } else if in_word {
            assert(ws.push(cur).drop_last() =~= ws);
            assert(s@.subrange(start as int, i + 1) =~= cur.push(c));
        } else {
            start = i;
            in_word = true;
            assert(s@.subrange(i as int, i + 1) =~= seq![c]);
        }
        i = i + 1;
    }
    if in_word {
        let ghost ws = words@.map_values(|w: String| w@);
        let w = String::from_str(s.substring_char(start, n));
        words.push(w);
        assert(words@.map_values(|w: String| w@) =~= ws.push(s@.subrange(start as int, n as int)));
    }
    assert(s@.subrange(0, n as int) =~= s@);
    words
}

} // verus!
