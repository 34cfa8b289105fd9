//! The kernel version that a header archive was made from.
//!
//! The archive holds `vmlinux/vmlinux.h` as a link to the header of one
//! kernel version; the link's name gives the version and the hash of the
//! commit.

use crate::archive::{
    archive_members, member_views, read_members, LinkName, LinkNameView, Member, MemberView,
};
use crate::link_name::{parse_link_name, version_and_hash};
use crate::paths::{paths_equal, same_path};
use vstd::prelude::*;

verus! {

/// Path of the member that carries the version.
pub const VMLINUX_H: &'static str = "vmlinux/vmlinux.h";

/// Why an archive gave no version.
#[derive(Debug, Clone, Copy, PartialEq, Eq, Structural)]
pub enum VersionError {
    /// The archive could not be read up to `vmlinux/vmlinux.h`, or what
    /// that member links to could not be decoded. An archive is not read
    /// from the first block on that reads as the header of a sparse member
    /// with extension blocks.
    Unreadable,
    /// The archive holds no `vmlinux/vmlinux.h`.
    NotFound,
    /// `vmlinux/vmlinux.h` is no link.
    NotALink,
    /// `vmlinux/vmlinux.h` links to a name that is no
    /// `vmlinux-v<version>-g<hash>.h`.
    BadLinkName,
}

/// Version and hash, or the reason why there is none.
pub type Outcome = Result<(Seq<char>, Seq<char>), VersionError>;

/// What the scan makes of one member: `None` where the member is not
/// `vmlinux/vmlinux.h` and the scan goes on, else what the scan ends with.
pub open spec fn member_outcome(member: MemberView) -> Option<Outcome> {
    match member {
        MemberView::Unreadable => Some(Err(VersionError::Unreadable)),
        MemberView::Entry { path, link_name } => if !same_path(path, VMLINUX_H@) {
            None
        } else {
            Some(
                match link_name {
                    LinkNameView::Unreadable => Err(VersionError::Unreadable),
                    LinkNameView::Absent => Err(VersionError::NotALink),
                    LinkNameView::Present(name) => match version_and_hash(name) {
                        Some(parts) => Ok(parts),
                        None => Err(VersionError::BadLinkName),
                    },
                },
            )
        },
    }
}

/// What a scan of `members` from index `i` on ends with.
pub open spec fn version_from(members: Seq<MemberView>, i: int) -> Outcome
    decreases members.len() - i,
{
    if !(0 <= i < members.len()) {
        Err(VersionError::NotFound)
    } else {
        match member_outcome(members[i]) {
            Some(outcome) => outcome,
            None => version_from(members, i + 1),
        }
    }
}

/// What a scan of `members` ends with: the outcome of the first member
/// that is unreadable or is `vmlinux/vmlinux.h`, and
/// [`VersionError::NotFound`] where there is no such member.
pub open spec fn version_in(members: Seq<MemberView>) -> Outcome {
    version_from(members, 0)
}

/// Whether `r` is `outcome`, each string taken by its view.
pub open spec fn is_outcome(r: Result<(String, String), VersionError>, outcome: Outcome) -> bool {
    match r {
        Ok((version, hash)) => outcome == Ok::<(Seq<char>, Seq<char>), VersionError>(
            (version@, hash@),
        ),
        Err(e) => outcome == Err::<(Seq<char>, Seq<char>), VersionError>(e),
    }
}

/// Scans `members` in order for `vmlinux/vmlinux.h` and reads version and
/// hash out of the name it links to.
pub fn version_of_members(members: &Vec<Member>) -> (r: Result<(String, String), VersionError>)
    ensures
        is_outcome(r, version_in(member_views(members@))),
{
    let ghost all = member_views(members@);
    let mut i: usize = 0;
    while i < members.len()
        invariant
            i <= members.len(),
            all == member_views(members@),
            version_in(all) == version_from(all, i as int),
        decreases members.len() - i,
    {
        assert(all[i as int] == members@[i as int]@);
        match &members[i] {
            Member::Unreadable => {
                return Err(VersionError::Unreadable);
            },
            Member::Entry { path, link_name } => {
                if paths_equal(path.as_str(), VMLINUX_H) {
                    return match link_name {
                        LinkName::Unreadable => Err(VersionError::Unreadable),
                        LinkName::Absent => Err(VersionError::NotALink),
                        LinkName::Present(name) => match parse_link_name(name.as_str()) {
                            Some(parts) => Ok(parts),
                            None => Err(VersionError::BadLinkName),
                        },
                    };
                }
            },
        }
        i += 1;
    }
    Err(VersionError::NotFound)
}

/// Reads version and commit hash out of a header archive.
///
/// The members count in the order in which `archive` stores them, and what
/// follows `vmlinux/vmlinux.h` has no part in the result. Nothing is kept
/// between calls: each call reads `archive` from its start.
pub fn vmlinux_h_version(archive: &[u8]) -> (r: Result<(String, String), VersionError>)
    ensures
        is_outcome(r, version_in(archive_members(archive@))),
{
    let members = read_members(archive);
    version_of_members(&members)
}

/// Where a member ends the scan, what follows it has no part in the
/// outcome; where none does, the scan goes on with what follows.
pub proof fn lemma_scan_stops_at_first_match(members: Seq<MemberView>, rest: Seq<MemberView>)
    ensures
        version_in(members + rest) == if version_in(members) == Err::<
            (Seq<char>, Seq<char>),
            VersionError,
        >(VersionError::NotFound) {
            version_in(rest)
        } else {
            version_in(members)
        },
{
    lemma_scan_from(members, rest, 0);
}

/// [`lemma_scan_stops_at_first_match`], for a scan from index `i` on.
proof fn lemma_scan_from(members: Seq<MemberView>, rest: Seq<MemberView>, i: int)
    requires
        0 <= i <= members.len(),
    ensures
        version_from(members + rest, i) == if version_from(members, i) == Err::<
            (Seq<char>, Seq<char>),
            VersionError,
        >(VersionError::NotFound) {
            version_in(rest)
        } else {
            version_from(members, i)
        },
    decreases members.len() - i,
{
    if i < members.len() {
        assert((members + rest)[i] == members[i]);
        lemma_scan_from(members, rest, i + 1);
    } else {
        lemma_scan_shifted(members, rest, 0);
    }
}

/// A scan of `rest` is a scan of `members + rest` from the end of `members`
/// on.
proof fn lemma_scan_shifted(members: Seq<MemberView>, rest: Seq<MemberView>, k: int)
    requires
        0 <= k <= rest.len(),
    ensures
        version_from(members + rest, members.len() + k) == version_from(rest, k),
    decreases rest.len() - k,
{
    if k < rest.len() {
        assert((members + rest)[members.len() + k] == rest[k]);
        lemma_scan_shifted(members, rest, k + 1);
    }
}

/// Two results for one archive are the same result: version and hash
/// depend on the bytes of the archive alone.
pub proof fn lemma_version_is_stable(
    archive: Seq<u8>,
    first: Result<(String, String), VersionError>,
    second: Result<(String, String), VersionError>,
)
    requires
        is_outcome(first, version_in(archive_members(archive))),
        is_outcome(second, version_in(archive_members(archive))),
    ensures
        first is Ok <==> second is Ok,
        first matches Ok((v1, h1)) ==> second matches Ok((v2, h2)) && v1@ == v2@ && h1@ == h2@,
        first matches Err(e1) ==> second matches Err(e2) && e1 == e2,
{
}

} // verus!
