//! The members of a tar archive, as far as the version scan reads them.
//!
//! The `tar` crate reads the archive. It is not handed every archive: the
//! version of it that this crate is built with can overflow its position on
//! the extension blocks of a sparse member, so an archive is read only up
//! to the first block that reads as the header of such a member. What lies
//! behind counts as one unreadable member.

use std::borrow::Cow;
use std::path::Path;
use vstd::prelude::*;
use vstd::slice::slice_subrange;

verus! {

/// What a member's header says of the name it links to.
#[derive(Debug, PartialEq, Eq)]
pub enum LinkName {
    /// The name could not be decoded.
    Unreadable,
    /// The member links to nothing.
    Absent,
    /// The member links to this name.
    Present(String),
}

/// One member of an archive.
#[derive(Debug, PartialEq, Eq)]
pub enum Member {
    /// The archive is damaged here, or the member's path could not be
    /// decoded.
    Unreadable,
    /// A member with the path that its header holds.
    Entry { path: String, link_name: LinkName },
}

/// A [`LinkName`] as the contracts see it.
pub ghost enum LinkNameView {
    Unreadable,
    Absent,
    Present(Seq<char>),
}

/// A [`Member`] as the contracts see it.
pub ghost enum MemberView {
    Unreadable,
    Entry { path: Seq<char>, link_name: LinkNameView },
}

impl View for LinkName {
    type V = LinkNameView;

    open spec fn view(&self) -> LinkNameView {
        match self {
            LinkName::Unreadable => LinkNameView::Unreadable,
            LinkName::Absent => LinkNameView::Absent,
            LinkName::Present(name) => LinkNameView::Present(name@),
        }
    }
}

impl View for Member {
    type V = MemberView;

    open spec fn view(&self) -> MemberView {
        match self {
            Member::Unreadable => MemberView::Unreadable,
            Member::Entry { path, link_name } => MemberView::Entry {
                path: path@,
                link_name: link_name@,
            },
        }
    }
}

/// The views of `members`, in order.
pub open spec fn member_views(members: Seq<Member>) -> Seq<MemberView> {
    members.map_values(|m: Member| m@)
}

/// Length of a block of a tar archive. Headers stand at multiples of it.
pub const BLOCK: usize = 512;

/// Whether block `k` of `archive` reads as the header of a sparse member that
/// goes on in extension blocks: a whole block whose type flag, at offset
/// 156, is `S`, and whose extension flag, at offset 482, is 1.
pub open spec fn extended_sparse_header_at(archive: Seq<u8>, k: int) -> bool {
    &&& 0 <= k
    &&& BLOCK * (k + 1) <= archive.len()
    &&& archive[BLOCK * k + 156] == 0x53
    &&& archive[BLOCK * k + 482] == 1
}

/// Whether no block of `archive` reads as such a header.
pub open spec fn walkable(archive: Seq<u8>) -> bool {
    forall|k: int| !extended_sparse_header_at(archive, k)
}

/// Whether block `k` is the first of `archive` that reads as such a header.
pub open spec fn first_extended_sparse_header(archive: Seq<u8>, k: int) -> bool {
    &&& extended_sparse_header_at(archive, k)
    &&& forall|j: int| j < k ==> !extended_sparse_header_at(archive, j)
}

/// How many bytes of `archive` are read: those before the first block that
/// reads as the header of a sparse member with extension blocks, and all of
/// them where there is no such block.
pub open spec fn walked_len(archive: Seq<u8>) -> int {
    if walkable(archive) {
        archive.len() as int
    } else {
        BLOCK * choose|k: int| first_extended_sparse_header(archive, k)
    }
}

/// What the `tar` crate reports of one entry, with its errors left out: the
/// text of the path in the entry's header, `None` where it could not be
/// decoded; and the text of the name that the entry links to, `None` where
/// it could not be decoded and `Some(None)` where the entry links to nothing.
pub type Report = (Option<String>, Option<Option<String>>);

/// A [`Report`] as the contracts see it.
pub type ReportView = (Option<Seq<char>>, Option<Option<Seq<char>>>);

/// What the `tar` crate reports of the entries of `archive`, in the order in
/// which they are stored: one item for each item of the iterator that
/// `tar::Archive::entries` returns, `None` for an error.
pub uninterp spec fn archive_reports(archive: Seq<u8>) -> Seq<Option<ReportView>>;

/// The member that a report describes.
pub open spec fn reported(report: Option<ReportView>) -> MemberView {
    match report {
        Some((Some(path), link_name)) => MemberView::Entry {
            path,
            link_name: match link_name {
                Some(Some(name)) => LinkNameView::Present(name),
                Some(None) => LinkNameView::Absent,
                None => LinkNameView::Unreadable,
            },
        },
        _ => MemberView::Unreadable,
    }
}

/// The members of `archive`, in the order in which they are stored.
///
/// The `tar` crate reads the archive up to the first block that reads as the
/// header of a sparse member with extension blocks. What stands from that
/// block on is not read, and counts as one unreadable member.
pub open spec fn archive_members(archive: Seq<u8>) -> Seq<MemberView> {
    let read = archive_reports(archive.take(walked_len(archive))).map_values(
        |r: Option<ReportView>| reported(r),
    );
    if walkable(archive) {
        read
    } else {
        read.push(MemberView::Unreadable)
    }
}

/// Walks the iterator that `tar::Archive::entries` returns for a
/// `tar::Archive::new` on `archive`, and reads `Entry::header`,
/// `Header::path` and `Entry::link_name` of each entry.
///
/// Each error becomes `None`: an item of the iterator that is an error, a
/// path or a link name that cannot be decoded, and the error that `entries`
/// itself may return, which gives one item. Each path becomes its text;
/// bytes that are not UTF-8 are replaced as `to_string_lossy` replaces them.
///
/// Version 0.4.46 of `tar` moves its position on by one block for each
/// extension block of a sparse member, without a test for overflow, and
/// does so only for a header with type flag `S` and the extension flag set.
/// It reads headers at multiples of the block length. An archive with such
/// a block is left out here.
///
/// Trusted: what comes back depends on the bytes of `archive` alone; it is
/// the sequence named [`archive_reports`]. Nothing else is claimed of it.
#[verifier::external_body]
fn read_reports(archive: &[u8]) -> (reports: Vec<Option<Report>>)
    requires
        walkable(archive@),
    ensures
        reports.deep_view() == archive_reports(archive@),
{
    let text = |p: Cow<Path>| p.to_string_lossy().into_owned();
    let report = |e: tar::Entry<&[u8]>| {
        (e.header().path().ok().map(text), e.link_name().ok().map(|l| l.map(text)))
    };
    let mut archive = tar::Archive::new(archive);
    match archive.entries() {
        Ok(entries) => entries.map(|e| e.ok().map(report)).collect(),
        Err(_) => vec![None],
    }
}

/// The member that `report` describes.
fn member_of(report: &Option<Report>) -> (member: Member)
    ensures
        member@ == reported(report.deep_view()),
{
    match report {
        Some((Some(path), link_name)) => Member::Entry {
            path: path.clone(),
            link_name: match link_name {
                Some(Some(name)) => LinkName::Present(name.clone()),
                Some(None) => LinkName::Absent,
                None => LinkName::Unreadable,
            },
        },
        _ => Member::Unreadable,
    }
}

/// An archive has one first block at most that reads as the header of a
/// sparse member with extension blocks.
pub proof fn lemma_first_extended_sparse_header_unique(archive: Seq<u8>, i: int, j: int)
    requires
        first_extended_sparse_header(archive, i),
        first_extended_sparse_header(archive, j),
    ensures
        i == j,
{
}

/// What is read of an archive holds no block that reads as the header of a
/// sparse member with extension blocks.
pub proof fn lemma_walked_part_is_walkable(archive: Seq<u8>)
    ensures
        0 <= walked_len(archive) <= archive.len(),
        walkable(archive.take(walked_len(archive))),
{
    if walkable(archive) {
        assert(archive.take(archive.len() as int) =~= archive);
    } else {
        let bad = choose|k: int| extended_sparse_header_at(archive, k);
        lemma_first_exists(archive, bad);
        let k = choose|k: int| first_extended_sparse_header(archive, k);
        let head = archive.take(BLOCK * k);
        assert forall|j: int| !extended_sparse_header_at(head, j) by {
            if extended_sparse_header_at(head, j) {
                assert(head[BLOCK * j + 156] == archive[BLOCK * j + 156]);
                assert(head[BLOCK * j + 482] == archive[BLOCK * j + 482]);
                assert(extended_sparse_header_at(archive, j));
            }
        }
    }
}

/// Where block `k` reads as such a header, some block up to `k` is the first
/// that does.
proof fn lemma_first_exists(archive: Seq<u8>, k: int)
    requires
        extended_sparse_header_at(archive, k),
    ensures
        exists|i: int| first_extended_sparse_header(archive, i),
    decreases k,
{
    if exists|j: int| j < k && extended_sparse_header_at(archive, j) {
        let j = choose|j: int| j < k && extended_sparse_header_at(archive, j);
        lemma_first_exists(archive, j);
    } else {
        assert(first_extended_sparse_header(archive, k));
    }
}

/// How many bytes of `archive` are read: see [`walked_len`].
pub fn walked(archive: &[u8]) -> (len: usize)
    ensures
        len == walked_len(archive@),
        len <= archive.len(),
        len == archive.len() <==> walkable(archive@),
{
    let n = archive.len();
    let mut at: usize = 0;
    let ghost mut k: int = 0;
    while n - at >= BLOCK
        invariant
            n == archive.len(),
            at <= n,
            at == BLOCK * k,
            0 <= k,
            forall|j: int| j < k ==> !extended_sparse_header_at(archive@, j),
        decreases n - at,
    {
        if archive[at + 156] == 0x53 && archive[at + 482] == 1 {
            proof {
                assert(first_extended_sparse_header(archive@, k));
                lemma_first_extended_sparse_header_unique(
                    archive@,
                    k,
                    choose|i: int| first_extended_sparse_header(archive@, i),
                );
            }
            return at;
        }
        at += BLOCK;
        proof {
            k = k + 1;
        }
    }
    n
}

/// Reads the members of `archive`: those that the `tar` crate finds before
/// the first block that reads as the header of a sparse member with
/// extension blocks, and one unreadable member in place of what lies
/// behind, where there is such a block.
pub fn read_members(archive: &[u8]) -> (members: Vec<Member>)
    ensures
        member_views(members@) == archive_members(archive@),
{
    let len = walked(archive);
    let head = slice_subrange(archive, 0, len);
    proof {
        lemma_walked_part_is_walkable(archive@);
        assert(head@ =~= archive@.take(len as int));
    }
    let reports = read_reports(head);
    let mut members: Vec<Member> = Vec::new();
    let mut i: usize = 0;
    while i < reports.len()
        invariant
            i <= reports.len(),
            members@.len() == i,
            forall|k: int|
                0 <= k < i ==> (#[trigger] members@[k])@ == reported(reports@[k].deep_view()),
        decreases reports.len() - i,
    {
        let member = member_of(&reports[i]);
        members.push(member);
        i += 1;
    }
    if len < archive.len() {
        members.push(Member::Unreadable);
    }
    assert(member_views(members@) =~= archive_members(archive@));
    members
}

} // verus!
