//! The name of the header that the archive's `vmlinux.h` links to.
//!
//! Such a name reads `vmlinux-v<version>-g<hash>.h`. Version and hash are
//! free text: each holds at least one character and no line feed, and the
//! version ends at the first `-g` that leaves a hash behind it.

use crate::text::chars_of;
use vstd::prelude::*;
use vstd::string::*;

verus! {

/// What every link name starts with.
pub open spec fn prefix() -> Seq<char> {
    "vmlinux-v"@
}

/// What stands between version and hash.
pub open spec fn separator() -> Seq<char> {
    "-g"@
}

/// What every link name ends with.
pub open spec fn suffix() -> Seq<char> {
    ".h"@
}

/// Whether `pat` stands in `s` at index `at`.
pub open spec fn has_at(s: Seq<char>, at: int, pat: Seq<char>) -> bool {
    &&& 0 <= at
    &&& at + pat.len() <= s.len()
    &&& s.subrange(at, at + pat.len()) == pat
}

/// Whether `name` is a link name whose separator stands at index `i`:
/// prefix, a version, the separator at `i`, a hash and the suffix, with no
/// line feed anywhere.
pub open spec fn splits_at(name: Seq<char>, i: int) -> bool {
    &&& !name.contains('\n')
    &&& has_at(name, 0, prefix())
    &&& has_at(name, i, separator())
    &&& has_at(name, name.len() - suffix().len(), suffix())
    &&& prefix().len() < i
    &&& i + separator().len() < name.len() - suffix().len()
}

/// Whether `i` is the first index at which `name` splits.
pub open spec fn first_split(name: Seq<char>, i: int) -> bool {
    &&& splits_at(name, i)
    &&& forall|j: int| j < i ==> !splits_at(name, j)
}

/// Version and hash of the link name `name`, split at the first index at
/// which it splits, or `None` where it splits nowhere.
pub open spec fn version_and_hash(name: Seq<char>) -> Option<(Seq<char>, Seq<char>)> {
    if exists|i: int| splits_at(name, i) {
        let i = choose|i: int| first_split(name, i);
        Some(
            (
                name.subrange(prefix().len() as int, i),
                name.subrange(i + separator().len(), name.len() - suffix().len()),
            ),
        )
    } else {
        None
    }
}

/// A name splits at one first index at most.
pub proof fn lemma_first_split_unique(name: Seq<char>, i: int, j: int)
    requires
        first_split(name, i),
        first_split(name, j),
    ensures
        i == j,
{
}

/// Where `i` is the first split of `name`, version and hash are the text on
/// either side of the separator at `i`.
pub proof fn lemma_version_and_hash_at(name: Seq<char>, i: int)
    requires
        first_split(name, i),
    ensures
        version_and_hash(name) == Some(
            (
                name.subrange(prefix().len() as int, i),
                name.subrange(i + separator().len(), name.len() - suffix().len()),
            ),
        ),
{
    let c = choose|k: int| first_split(name, k);
    lemma_first_split_unique(name, i, c);
}

/// The link name that holds `version` and `hash`.
pub open spec fn link_name_of(version: Seq<char>, hash: Seq<char>) -> Seq<char> {
    prefix() + version + separator() + hash + suffix()
}

/// Whether the separator stands in `version` behind its first character.
pub open spec fn holds_separator(version: Seq<char>) -> bool {
    exists|k: int| 1 <= k && has_at(version, k, separator())
}

/// A link name gives back the version and the hash that it was made of,
/// where neither is empty or holds a line feed and the version holds no
/// separator behind its first character.
pub proof fn lemma_link_name_gives_its_parts(version: Seq<char>, hash: Seq<char>)
    requires
        version.len() > 0,
        hash.len() > 0,
        !version.contains('\n'),
        !hash.contains('\n'),
        !holds_separator(version),
    ensures
        version_and_hash(link_name_of(version, hash)) == Some((version, hash)),
{
    reveal_strlit("vmlinux-v");
    reveal_strlit("-g");
    reveal_strlit(".h");
    let name = link_name_of(version, hash);
    let i = (prefix().len() + version.len()) as int;
    let end: int = name.len() - suffix().len();
    assert(name.subrange(0, prefix().len() as int) =~= prefix());
    assert(name.subrange(i, i + separator().len()) =~= separator());
    assert(name.subrange(end, end + suffix().len()) =~= suffix());
    assert(name.subrange(prefix().len() as int, i) =~= version);
    assert(name.subrange(i + separator().len(), end) =~= hash);
    assert forall|k: int| 0 <= k < name.len() implies name[k] != '\n' by {
        if k < prefix().len() {
            assert(name[k] == prefix()[k]);
        } else if k < i {
            assert(name[k] == version[k - prefix().len()]);
        } else if k < i + separator().len() {
            assert(name[k] == separator()[k - i]);
        } else if k < end {
            assert(name[k] == hash[k - i - separator().len()]);
        } else {
            assert(name[k] == suffix()[k - end]);
        }
    }
    assert(splits_at(name, i));
    assert forall|j: int| j < i implies !splits_at(name, j) by {
        if splits_at(name, j) {
            let k = j - prefix().len();
            let found = name.subrange(j, j + separator().len());
            assert(found[0] == '-' && found[1] == 'g');
            if j + separator().len() <= i {
                assert(version.subrange(k, k + separator().len()) =~= found);
                assert(has_at(version, k, separator()));
            } else {
                assert(name[j + 1] == separator()[0]);
            }
        }
    }
    lemma_version_and_hash_at(name, i);
}

/// Whether `pat` stands in `s` at index `at`.
fn starts_at(s: &Vec<char>, at: usize, pat: &Vec<char>) -> (r: bool)
    ensures
        r == has_at(s@, at as int, pat@),
{
    if pat.len() > s.len() || at > s.len() - pat.len() {
        return false;
    }
    let mut k: usize = 0;
    while k < pat.len()
        invariant
            k <= pat.len(),
            at + pat.len() <= s.len(),
            forall|j: int| 0 <= j < k ==> s@[at + j] == pat@[j],
        decreases pat.len() - k,
    {
        if s[at + k] != pat[k] {
            assert(s@.subrange(at as int, at + pat.len())[k as int] != pat@[k as int]);
            return false;
        }
        k += 1;
    }
    assert(s@.subrange(at as int, at + pat.len()) =~= pat@);
    true
}

/// Whether `s` holds a line feed.
fn has_line_feed(s: &Vec<char>) -> (r: bool)
    ensures
        r == s@.contains('\n'),
{
    let mut k: usize = 0;
    while k < s.len()
        invariant
            k <= s.len(),
            forall|j: int| 0 <= j < k ==> s@[j] != '\n',
        decreases s.len() - k,
    {
        if s[k] == '\n' {
            return true;
        }
        k += 1;
    }
    false
}

/// Reads version and hash out of a link name.
pub fn parse_link_name(name: &str) -> (r: Option<(String, String)>)
    ensures
        match r {
            Some((version, hash)) => version_and_hash(name@) == Some((version@, hash@)),
            None => version_and_hash(name@) is None,
        },
{
    proof {
        reveal_strlit("vmlinux-v");
        reveal_strlit("-g");
        reveal_strlit(".h");
    }
    let s = chars_of(name);
    let pre = chars_of("vmlinux-v");
    let sep = chars_of("-g");
    let suf = chars_of(".h");
    if has_line_feed(&s) || !starts_at(&s, 0, &pre) || s.len() < suf.len() || !starts_at(
        &s,
        s.len() - suf.len(),
        &suf,
    ) {
        return None;
    }
    let end: usize = s.len() - suf.len();
    let mut i: usize = pre.len() + 1;
    while i < end && sep.len() < end - i
        invariant
            s@ == name@,
            pre@ == prefix(),
            sep@ == separator(),
            suf@ == suffix(),
            sep@.len() == 2,
            end == s.len() - suf.len(),
            !s@.contains('\n'),
            has_at(s@, 0, prefix()),
            has_at(s@, end as int, suffix()),
            pre.len() < i,
            forall|j: int| j < i ==> !splits_at(s@, j),
        decreases end - i,
    {
        if starts_at(&s, i, &sep) {
            proof {
                lemma_version_and_hash_at(name@, i as int);
            }
            let version = String::from_str(name.substring_char(pre.len(), i));
            let hash = String::from_str(name.substring_char(i + sep.len(), end));
            return Some((version, hash));
        }
        i += 1;
    }
    None
}

} // verus!
