//! Reading text by position: characters of a string, and fixed words in it.

use vstd::prelude::*;

verus! {

/// Where the word `word` ends if it stands in `s` at `at`.
pub open spec fn word_end(s: Seq<char>, at: int, word: Seq<char>) -> Option<int> {
    if 0 <= at && at + word.len() <= s.len() && s.subrange(at, at + word.len()) == word {
        Some(at + word.len())
    } else {
        None
    }
}

/// The characters of `s`, in order.
pub fn to_chars(s: &str) -> (chars: Vec<char>)
    ensures
        chars@ == s@,
{
    let n = s.unicode_len();
    let mut chars: Vec<char> = Vec::new();
    let mut i: usize = 0;
    while i < n
        invariant
            n == s@.len(),
            i <= n,
            chars@ == s@.take(i as int),
        decreases n - i,
    {
        chars.push(s.get_char(i));
        i += 1;
        assert(chars@ =~= s@.take(i as int));
    }
    assert(s@.take(n as int) =~= s@);
    chars
}

/// Tells where `word` ends if it stands in `chars` at `at`.
pub fn match_word(chars: &Vec<char>, at: usize, word: &str) -> (r: Option<usize>)
    ensures
        match r {
            Some(end) => word_end(chars@, at as int, word@) == Some(end as int),
            None => word_end(chars@, at as int, word@) is None,
        },
{
    let letters = to_chars(word);
    let n = letters.len();
    if at > chars.len() || n > chars.len() - at {
        return None;
    }
    let mut i: usize = 0;
    while i < n
        invariant
            letters@ == word@,
            n == letters.len(),
            at + n <= chars.len(),
            i <= n,
            chars@.subrange(at as int, at + i) == letters@.take(i as int),
        decreases n - i,
    {
        if chars[at + i] != letters[i] {
            assert(chars@.subrange(at as int, at + n)[i as int] != letters@[i as int]);
            return None;
        }
        i += 1;
        assert(chars@.subrange(at as int, at + i) =~= letters@.take(i as int)) by {
            assert(chars@.subrange(at as int, at + i - 1) == letters@.take(i - 1));
            assert forall|k: int| 0 <= k < i implies chars@.subrange(at as int, at + i)[k]
                == letters@.take(i as int)[k] by {
                if k < i - 1 {
                    assert(chars@.subrange(at as int, at + i - 1)[k] == letters@.take(i - 1)[k]);
                }
            }
        }
    }
    assert(letters@.take(n as int) =~= letters@);
    Some(at + n)
}

} // verus!
