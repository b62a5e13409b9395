//! The cheap rejection rule applied before any tokenization or inference
//! work: text that is too short, or made of too few words, is ignored
//! outright, so that trivial input never reaches the model.

use vstd::prelude::*;
use vstd::string::*;

verus! {

/// Inputs shorter than this many characters are rejected.
pub const MIN_CHARS: usize = 10;

/// Inputs with fewer than this many whitespace-separated words are rejected.
pub const MIN_WORDS: usize = 3;

/// The Unicode `White_Space` code points; these are the separators that
/// delimit words.
pub open spec fn is_space(c: char) -> bool {
    let u = c as u32;
    u == 0x09 || u == 0x0A || u == 0x0B || u == 0x0C || u == 0x0D || u == 0x20 || u == 0x85
        || u == 0xA0 || u == 0x1680 || (0x2000 <= u && u <= 0x200A) || u == 0x2028 || u == 0x2029
        || u == 0x202F || u == 0x205F || u == 0x3000
}

/// The number of maximal runs of non-whitespace characters in `s`: what
/// splitting on whitespace and discarding empty pieces would yield.
pub open spec fn word_count(s: Seq<char>) -> int
    decreases s.len(),
{
    if s.len() == 0 {
        0
    } else {
        word_count(s.drop_last()) + if !is_space(s.last()) && (s.len() == 1 || is_space(
            s[s.len() - 2],
        )) {
            1int
        } else {
            0int
        }
    }
}

/// The rejection rule: too few characters, or too few words.
pub open spec fn spec_rejects(s: Seq<char>) -> bool {
    s.len() < MIN_CHARS || word_count(s) < MIN_WORDS
}

/// Decides whether `c` is one of the Unicode `White_Space` code points.
pub fn char_is_space(c: char) -> (r: bool)
    ensures
        r == is_space(c),
{
    let u = c as u32;
    u == 0x09 || u == 0x0A || u == 0x0B || u == 0x0C || u == 0x0D || u == 0x20 || u == 0x85
        || u == 0xA0 || u == 0x1680 || (0x2000 <= u && u <= 0x200A) || u == 0x2028 || u == 0x2029
        || u == 0x202F || u == 0x205F || u == 0x3000
}

/// Applies the pre-filter: true means the text is rejected without any
/// model work.
pub fn rejects(text: &str) -> (r: bool)
    ensures
        r == spec_rejects(text@),
{
    let n = text.unicode_len();
    if n < MIN_CHARS {
        return true;
    }
    let mut i: usize = 0;
    let mut words: usize = 0;
    let mut prev_space = true;
    while i < n
        invariant
            n == text@.len(),
            i <= n,
            words <= i,
            words == word_count(text@.subrange(0, i as int)),
            prev_space == (i == 0 || is_space(text@[i as int - 1])),
        decreases n - i,
    {
        let c = text.get_char(i);
        let sp = char_is_space(c);
        if !sp && prev_space {
            words = words + 1;
        }
        proof {
            let s1 = text@.subrange(0, i as int + 1);
            assert(s1.drop_last() =~= text@.subrange(0, i as int));
            assert(s1.last() == text@[i as int]);
            if i > 0 {
                assert(s1[s1.len() - 2] == text@[i as int - 1]);
            }
        }
        prev_space = sp;
        i = i + 1;
    }
    proof {
        assert(text@.subrange(0, n as int) =~= text@);
    }
    words < MIN_WORDS
}

} // verus!
