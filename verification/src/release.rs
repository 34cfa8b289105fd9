//! The form that version and hash take in the archives that are shipped.
//!
//! A version is two or three numbers joined by dots, as in `6.12` or
//! `6.9.3`; a hash is twelve digits or lower-case letters. The version scan
//! does not ask for this form: it can be tested for afterwards.

use crate::link_name::{
    has_at, lemma_link_name_gives_its_parts, link_name_of, separator, version_and_hash,
};
use crate::text::chars_of;
use vstd::prelude::*;

verus! {

/// Whether `c` is one of `0` to `9`.
pub open spec fn is_digit(c: char) -> bool {
    0x30 <= c as u32 <= 0x39
}

/// Whether `c` is one of `a` to `z`.
pub open spec fn is_lower(c: char) -> bool {
    0x61 <= c as u32 <= 0x7a
}

/// Whether `s` is a number: digits only, at least one, the first not `0`.
pub open spec fn is_number(s: Seq<char>) -> bool {
    &&& s.len() > 0
    &&& s[0] != '0'
    &&& forall|k: int| 0 <= k < s.len() ==> is_digit(s[k])
}

/// Whether `s` is two numbers with a dot at index `i` between them.
pub open spec fn two_numbers(s: Seq<char>, i: int) -> bool {
    &&& 0 <= i < s.len()
    &&& s[i] == '.'
    &&& is_number(s.take(i))
    &&& is_number(s.skip(i + 1))
}

/// Whether `s` is three numbers with dots at the indices `i` and `j` between
/// them.
pub open spec fn three_numbers(s: Seq<char>, i: int, j: int) -> bool {
    &&& 0 <= i < j < s.len()
    &&& s[i] == '.'
    &&& s[j] == '.'
    &&& is_number(s.take(i))
    &&& is_number(s.subrange(i + 1, j))
    &&& is_number(s.skip(j + 1))
}

/// Whether `s` is a release version: two or three numbers joined by dots.
pub open spec fn is_release_version(s: Seq<char>) -> bool {
    ||| exists|i: int| two_numbers(s, i)
    ||| exists|i: int, j: int| three_numbers(s, i, j)
}

/// Whether `s` is a commit hash: twelve characters, each a digit or a
/// lower-case letter.
pub open spec fn is_commit_hash(s: Seq<char>) -> bool {
    &&& s.len() == 12
    &&& forall|k: int| 0 <= k < s.len() ==> is_digit(s[k]) || is_lower(s[k])
}

/// A release version holds digits and dots only.
pub proof fn lemma_version_holds_digits_and_dots(s: Seq<char>, k: int)
    requires
        is_release_version(s),
        0 <= k < s.len(),
    ensures
        is_digit(s[k]) || s[k] == '.',
{
    if exists|i: int| two_numbers(s, i) {
        let i = choose|i: int| two_numbers(s, i);
        if k < i {
            assert(is_digit(s.take(i)[k]));
        } else if k > i {
            assert(is_digit(s.skip(i + 1)[k - i - 1]));
        }
    } else {
        let (i, j) = choose|i: int, j: int| three_numbers(s, i, j);
        if k < i {
            assert(is_digit(s.take(i)[k]));
        } else if i < k < j {
            assert(is_digit(s.subrange(i + 1, j)[k - i - 1]));
        } else if k > j {
            assert(is_digit(s.skip(j + 1)[k - j - 1]));
        }
    }
}

/// The link name of a release version and a commit hash gives back both.
pub proof fn lemma_release_name_gives_its_parts(version: Seq<char>, hash: Seq<char>)
    requires
        is_release_version(version),
        is_commit_hash(hash),
    ensures
        version_and_hash(link_name_of(version, hash)) == Some((version, hash)),
{
    reveal_strlit("-g");
    assert forall|k: int| 0 <= k < version.len() implies version[k] != '\n' && version[k]
        != '-' by {
        lemma_version_holds_digits_and_dots(version, k);
    }
    assert forall|k: int| 1 <= k implies !has_at(version, k, separator()) by {
        if has_at(version, k, separator()) {
            assert(version.subrange(k, k + separator().len())[0] == '-');
        }
    }
    assert(version.len() > 0) by {
        if exists|i: int| two_numbers(version, i) {
            let i = choose|i: int| two_numbers(version, i);
        } else {
            let (i, j) = choose|i: int, j: int| three_numbers(version, i, j);
        }
    }
    assert forall|k: int| 0 <= k < hash.len() implies hash[k] != '\n' by {
        assert(is_digit(hash[k]) || is_lower(hash[k]));
    }
    lemma_link_name_gives_its_parts(version, hash);
}

/// Whether the characters of `s` from `from` up to `to` are a number.
fn number_between(s: &Vec<char>, from: usize, to: usize) -> (r: bool)
    requires
        from <= to <= s.len(),
    ensures
        r == is_number(s@.subrange(from as int, to as int)),
{
    let ghost part = s@.subrange(from as int, to as int);
    if from == to || s[from] == '0' {
        return false;
    }
    let mut k: usize = from;
    while k < to
        invariant
            from <= k <= to <= s.len(),
            part == s@.subrange(from as int, to as int),
            forall|m: int| 0 <= m < k - from ==> is_digit(part[m]),
        decreases to - k,
    {
        let n: u32 = s[k] as u32;
        if n < 0x30 || n > 0x39 {
            assert(!is_digit(part[k - from]));
            return false;
        }
        k += 1;
    }
    true
}

/// The first index from `from` on at which `s` holds a dot, or the length
/// of `s` where it holds none.
fn next_dot(s: &Vec<char>, from: usize) -> (at: usize)
    requires
        from <= s.len(),
    ensures
        from <= at <= s.len(),
        at < s.len() ==> s@[at as int] == '.',
        forall|k: int| from <= k < at ==> s@[k] != '.',
{
    let mut at: usize = from;
    while at < s.len() && s[at] != '.'
        invariant
            from <= at <= s.len(),
            forall|k: int| from <= k < at ==> s@[k] != '.',
        decreases s.len() - at,
    {
        at += 1;
    }
    at
}

/// A number holds no dot.
proof fn lemma_number_holds_no_dot(s: Seq<char>, k: int)
    requires
        is_number(s),
        0 <= k < s.len(),
    ensures
        s[k] != '.',
{
    assert(is_digit(s[k]));
}

/// In a release version the first dot is the one behind the first number,
/// and the next dot, if there is one, the one behind the second.
proof fn lemma_dots_of_a_version(s: Seq<char>, i: int, j: int)
    requires
        0 <= i < s.len(),
        s[i] == '.',
        forall|k: int| 0 <= k < i ==> s[k] != '.',
        i < j <= s.len(),
        j < s.len() ==> s[j] == '.',
        forall|k: int| i < k < j ==> s[k] != '.',
    ensures
        forall|a: int| two_numbers(s, a) ==> a == i && j == s.len(),
        forall|a: int, b: int| three_numbers(s, a, b) ==> a == i && b == j,
{
    assert forall|a: int| two_numbers(s, a) implies a == i && j == s.len() by {
        if i < a {
            lemma_number_holds_no_dot(s.take(a), i);
        }
        if j < s.len() {
            lemma_number_holds_no_dot(s.skip(a + 1), j - a - 1);
        }
    }
    assert forall|a: int, b: int| three_numbers(s, a, b) implies a == i && b == j by {
        if i < a {
            lemma_number_holds_no_dot(s.take(a), i);
        }
        if j < b {
            lemma_number_holds_no_dot(s.subrange(a + 1, b), j - a - 1);
        }
    }
}

/// Tests `version` for the form of a release version.
pub fn is_version(version: &str) -> (r: bool)
    ensures
        r == is_release_version(version@),
{
    let s = chars_of(version);
    let n = s.len();
    let i = next_dot(&s, 0);
    if i == n {
        return false;
    }
    let j = next_dot(&s, i + 1);
    proof {
        lemma_dots_of_a_version(s@, i as int, j as int);
        assert(s@.subrange(0, i as int) =~= s@.take(i as int));
        assert(s@.subrange(j as int, n as int) =~= s@.skip(j as int));
        if j < n {
            assert(s@.subrange(j + 1, n as int) =~= s@.skip(j + 1));
        } else {
            assert(s@.subrange(i + 1, n as int) =~= s@.skip(i + 1));
        }
    }
    if !number_between(&s, 0, i) {
        return false;
    }
    if j == n {
        let r = number_between(&s, i + 1, n);
        assert(r == two_numbers(s@, i as int));
        r
    } else {
        let r = number_between(&s, i + 1, j) && number_between(&s, j + 1, n);
        assert(r == three_numbers(s@, i as int, j as int));
        r
    }
}

/// Tests `hash` for the form of a commit hash.
pub fn is_hash(hash: &str) -> (r: bool)
    ensures
        r == is_commit_hash(hash@),
{
    let s = chars_of(hash);
    if s.len() != 12 {
        return false;
    }
    let mut k: usize = 0;
    while k < s.len()
        invariant
            s@ == hash@,
            k <= s.len() == 12,
            forall|m: int| 0 <= m < k ==> is_digit(s@[m]) || is_lower(s@[m]),
        decreases s.len() - k,
    {
        let n: u32 = s[k] as u32;
        if !((0x30 <= n && n <= 0x39) || (0x61 <= n && n <= 0x7a)) {
            assert(!is_digit(s@[k as int]) && !is_lower(s@[k as int]));
            return false;
        }
        k += 1;
    }
    true
}

} // verus!
