//! Splitting a string into its white-space separated words.

use crate::text::{chars_of, views};
use vstd::prelude::*;
use vstd::string::*;

verus! {

/// Whether `c` has the Unicode property `White_Space`.
pub open spec fn is_white_space(c: char) -> bool {
    let n = c as u32;
    ||| 0x09 <= n <= 0x0D
    ||| n == 0x20
    ||| n == 0x85
    ||| n == 0xA0
    ||| n == 0x1680
    ||| 0x2000 <= n <= 0x200A
    ||| n == 0x2028
    ||| n == 0x2029
    ||| n == 0x202F
    ||| n == 0x205F
    ||| n == 0x3000
}

/// Tests `c` for the Unicode property `White_Space`.
pub fn is_whitespace(c: char) -> (r: bool)
    ensures
        r == is_white_space(c),
{
    let n: u32 = c as u32;
    (0x09 <= n && n <= 0x0D) || n == 0x20 || n == 0x85 || n == 0xA0 || n == 0x1680 || (0x2000 <= n
        && n <= 0x200A) || n == 0x2028 || n == 0x2029 || n == 0x202F || n == 0x205F || n == 0x3000
}

/// Where the word ends that starts at `i`: the first index from `i` on that
/// holds white space, or the length of `s` where there is none.
pub open spec fn word_end(s: Seq<char>, i: int) -> int
    decreases s.len() - i,
{
    if 0 <= i < s.len() && !is_white_space(s[i]) {
        word_end(s, i + 1)
    } else {
        i
    }
}

/// The words of `s` from index `i` on: the longest runs of characters
/// without white space, in order.
pub open spec fn words_from(s: Seq<char>, i: int) -> Seq<Seq<char>>
    decreases s.len() - i,
    via words_from_decreases
{
    if !(0 <= i < s.len()) {
        Seq::empty()
    } else if is_white_space(s[i]) {
        words_from(s, i + 1)
    } else {
        seq![s.subrange(i, word_end(s, i))] + words_from(s, word_end(s, i))
    }
}

#[via_fn]
proof fn words_from_decreases(s: Seq<char>, i: int) {
    if 0 <= i < s.len() && !is_white_space(s[i]) {
        lemma_word_end_bounds(s, i + 1);
    }
}

/// The words of `s`: what is left of it when it is cut at every run of
/// white space; no word is empty.
pub open spec fn words(s: Seq<char>) -> Seq<Seq<char>> {
    words_from(s, 0)
}

/// A word that starts inside `s` ends inside `s`, at or behind its start.
pub proof fn lemma_word_end_bounds(s: Seq<char>, i: int)
    requires
        0 <= i <= s.len(),
    ensures
        i <= word_end(s, i) <= s.len(),
    decreases s.len() - i,
{
    if i < s.len() && !is_white_space(s[i]) {
        lemma_word_end_bounds(s, i + 1);
    }
}

/// Every word holds a character, and none holds white space.
pub proof fn lemma_words_hold_no_white_space(s: Seq<char>, k: int)
    requires
        0 <= k < words(s).len(),
    ensures
        words(s)[k].len() > 0,
        forall|j: int| 0 <= j < words(s)[k].len() ==> !is_white_space(words(s)[k][j]),
{
    lemma_words_from_hold_no_white_space(s, 0, k);
}

/// [`lemma_words_hold_no_white_space`], for the words from index `i` on.
proof fn lemma_words_from_hold_no_white_space(s: Seq<char>, i: int, k: int)
    requires
        0 <= i <= s.len(),
        0 <= k < words_from(s, i).len(),
    ensures
        words_from(s, i)[k].len() > 0,
        forall|j: int|
            0 <= j < words_from(s, i)[k].len() ==> !is_white_space(words_from(s, i)[k][j]),
    decreases s.len() - i,
{
    if i < s.len() {
        if is_white_space(s[i]) {
            lemma_words_from_hold_no_white_space(s, i + 1, k);
        } else {
            let e = word_end(s, i);
            lemma_word_end_bounds(s, i + 1);
            if k == 0 {
                lemma_word_is_clean(s, i, e);
            } else {
                lemma_words_from_hold_no_white_space(s, e, k - 1);
            }
        }
    }
}

/// No character before the end of a word is white space.
proof fn lemma_word_is_clean(s: Seq<char>, i: int, e: int)
    requires
        0 <= i <= s.len(),
        e == word_end(s, i),
    ensures
        forall|j: int| i <= j < e ==> !is_white_space(s[j]),
    decreases s.len() - i,
{
    if i < s.len() && !is_white_space(s[i]) {
        lemma_word_is_clean(s, i + 1, e);
    }
}

/// Text without white space is one word.
pub proof fn lemma_text_without_white_space_is_one_word(s: Seq<char>)
    requires
        s.len() > 0,
        forall|k: int| 0 <= k < s.len() ==> !is_white_space(s[k]),
    ensures
        words(s) == seq![s],
{
    lemma_word_goes_on(s, 0);
    assert(s.subrange(0, s.len() as int) =~= s);
    assert(words_from(s, s.len() as int) =~= Seq::empty());
    assert(seq![s] + Seq::<Seq<char>>::empty() =~= seq![s]);
}

/// A word goes on as long as no white space comes.
proof fn lemma_word_goes_on(s: Seq<char>, i: int)
    requires
        0 <= i <= s.len(),
        forall|k: int| i <= k < s.len() ==> !is_white_space(s[k]),
    ensures
        word_end(s, i) == s.len(),
    decreases s.len() - i,
{
    if i < s.len() {
        lemma_word_goes_on(s, i + 1);
    }
}

/// White space between two texts keeps their words apart: the words of the
/// whole are the words of the first text, then those of the second.
pub proof fn lemma_white_space_parts_words(a: Seq<char>, c: char, b: Seq<char>)
    requires
        is_white_space(c),
    ensures
        words(a + seq![c] + b) == words(a) + words(b),
{
    lemma_words_before_white_space(a, c, b, 0);
}

/// Before the white space, a word of the whole ends where the word of the
/// first text ends.
proof fn lemma_word_end_before_white_space(a: Seq<char>, c: char, b: Seq<char>, i: int)
    requires
        is_white_space(c),
        0 <= i <= a.len(),
    ensures
        word_end(a + seq![c] + b, i) == word_end(a, i),
    decreases a.len() - i,
{
    let s = a + seq![c] + b;
    if i < a.len() {
        assert(s[i] == a[i]);
        lemma_word_end_before_white_space(a, c, b, i + 1);
    } else {
        assert(s[i] == c);
    }
}

/// Behind the white space, a word of the whole ends where the word of the
/// second text ends.
proof fn lemma_word_end_behind_white_space(a: Seq<char>, c: char, b: Seq<char>, k: int)
    requires
        0 <= k <= b.len(),
    ensures
        word_end(a + seq![c] + b, a.len() + 1 + k) == a.len() + 1 + word_end(b, k),
    decreases b.len() - k,
{
    let s = a + seq![c] + b;
    if k < b.len() {
        assert(s[a.len() + 1 + k] == b[k]);
        lemma_word_end_behind_white_space(a, c, b, k + 1);
    }
}

/// Behind the white space, the words of the whole are those of the second
/// text.
proof fn lemma_words_behind_white_space(a: Seq<char>, c: char, b: Seq<char>, k: int)
    requires
        0 <= k <= b.len(),
    ensures
        words_from(a + seq![c] + b, a.len() + 1 + k) == words_from(b, k),
    decreases b.len() - k,
{
    let s = a + seq![c] + b;
    let at = a.len() + 1 + k;
    if k < b.len() {
        assert(s[at] == b[k]);
        if is_white_space(b[k]) {
            lemma_words_behind_white_space(a, c, b, k + 1);
        } else {
            let e = word_end(b, k);
            lemma_word_end_bounds(b, k + 1);
            lemma_word_end_behind_white_space(a, c, b, k);
            lemma_words_behind_white_space(a, c, b, e);
            assert(s.subrange(at, a.len() + 1 + e) =~= b.subrange(k, e));
        }
    }
}

/// From an index before the white space on, the words of the whole are
/// those of the first text from that index on, then those of the second.
proof fn lemma_words_before_white_space(a: Seq<char>, c: char, b: Seq<char>, i: int)
    requires
        is_white_space(c),
        0 <= i <= a.len(),
    ensures
        words_from(a + seq![c] + b, i) == words_from(a, i) + words(b),
    decreases a.len() - i,
{
    let s = a + seq![c] + b;
    if i < a.len() {
        assert(s[i] == a[i]);
        if is_white_space(a[i]) {
            lemma_words_before_white_space(a, c, b, i + 1);
        } else {
            let e = word_end(a, i);
            lemma_word_end_bounds(a, i + 1);
            lemma_word_end_before_white_space(a, c, b, i);
            lemma_words_before_white_space(a, c, b, e);
            assert(s.subrange(i, e) =~= a.subrange(i, e));
            assert(seq![a.subrange(i, e)] + (words_from(a, e) + words(b)) =~= (seq![
                a.subrange(i, e),
            ] + words_from(a, e)) + words(b));
        }
    } else {
        assert(s[i] == c);
        lemma_words_behind_white_space(a, c, b, 0);
        assert(Seq::<Seq<char>>::empty() + words(b) =~= words(b));
    }
}

/// Splits `s` at white space, as `str::split_whitespace` does.
pub fn split_whitespace(s: &str) -> (out: Vec<String>)
    ensures
        views(out@) == words(s@),
{
    let chars = chars_of(s);
    let n = chars.len();
    let mut out: Vec<String> = Vec::new();
    let mut i: usize = 0;
    while i < n
        invariant
            chars@ == s@,
            n == chars.len(),
            i <= n,
            words(s@) == views(out@) + words_from(s@, i as int),
        decreases n - i,
    {
        if is_whitespace(chars[i]) {
            i += 1;
        } else {
            let mut j: usize = i + 1;
            while j < n && !is_whitespace(chars[j])
                invariant
                    chars@ == s@,
                    n == chars.len(),
                    i < j <= n,
                    word_end(s@, i as int) == word_end(s@, j as int),
                decreases n - j,
            {
                j += 1;
            }
            let word = String::from_str(s.substring_char(i, j));
            proof {
                assert(views(out@.push(word)) =~= views(out@) + seq![s@.subrange(i as int, j as int)]);
            }
            out.push(word);
            i = j;
        }
    }
    proof {
        assert(views(out@) + Seq::<Seq<char>>::empty() =~= views(out@));
    }
    out
}

} // verus!
