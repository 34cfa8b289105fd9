use scx_utils::archive::{read_members, walked, LinkName, Member};
use scx_utils::version::{version_of_members, vmlinux_h_version, VersionError, VMLINUX_H};

fn link_header() -> tar::Header {
    let mut header = tar::Header::new_gnu();
    header.set_entry_type(tar::EntryType::Symlink);
    header.set_size(0);
    header.set_mode(0o777);
    header
}

fn file_header(len: usize) -> tar::Header {
    let mut header = tar::Header::new_gnu();
    header.set_entry_type(tar::EntryType::Regular);
    header.set_size(len as u64);
    header.set_mode(0o644);
    header
}

/// An archive laid out as the bundled one: the versioned header, and
/// `vmlinux/vmlinux.h` as a link to it.
fn header_archive(link_name: &str) -> Vec<u8> {
    let text = b"#ifndef __VMLINUX_H__\n#define __VMLINUX_H__\n#endif\n";
    let mut builder = tar::Builder::new(Vec::new());
    builder
        .append_data(&mut file_header(text.len()), format!("vmlinux/{}", link_name), &text[..])
        .unwrap();
    builder.append_link(&mut link_header(), "vmlinux/vmlinux.h", link_name).unwrap();
    builder.into_inner().unwrap()
}

fn entry(path: &str, link_name: LinkName) -> Member {
    Member::Entry { path: path.to_string(), link_name }
}

fn present(name: &str) -> LinkName {
    LinkName::Present(name.to_string())
}

#[test]
fn test_vmlinux_h_version() {
    let archive = header_archive("vmlinux-v6.12-g0123456789ab.h");
    let (ver, sha1) = vmlinux_h_version(&archive).unwrap();

    println!("test_vmlinux_h_version: ver={:?} sha1={:?}", &ver, &sha1,);

    assert!(
        regex::Regex::new(r"^[1-9][0-9]*\.[1-9][0-9]*(\.[1-9][0-9]*)?$")
            .unwrap()
            .is_match(&ver)
    );
    assert!(regex::Regex::new(r"^[0-9a-z]{12}$")
        .unwrap()
        .is_match(&sha1));
}

#[test]
fn version_and_hash_are_the_two_segments() {
    let archive = header_archive("vmlinux-v6.12-g0123456789ab.h");
    assert_eq!(
        vmlinux_h_version(&archive),
        Ok(("6.12".to_string(), "0123456789ab".to_string()))
    );
    let archive = header_archive("vmlinux-v6.9.3-gfedcba987654.h");
    assert_eq!(
        vmlinux_h_version(&archive),
        Ok(("6.9.3".to_string(), "fedcba987654".to_string()))
    );
}

#[test]
fn two_calls_give_the_same_result() {
    let archive = header_archive("vmlinux-v6.12-g0123456789ab.h");
    let first = vmlinux_h_version(&archive);
    let second = vmlinux_h_version(&archive);
    assert_eq!(first, second);
    assert_eq!(first, Ok(("6.12".to_string(), "0123456789ab".to_string())));
}

#[test]
fn members_before_the_link_are_passed_over() {
    let mut builder = tar::Builder::new(Vec::new());
    builder.append_data(&mut file_header(2), "vmlinux/a.h", &b"a\n"[..]).unwrap();
    builder.append_link(&mut link_header(), "vmlinux/b.h", "vmlinux-v1.1-gaaaaaaaaaaaa.h").unwrap();
    builder.append_link(&mut link_header(), "vmlinux/vmlinux.h", "vmlinux-v2.2-gbbbbbbbbbbbb.h").unwrap();
    builder.append_link(&mut link_header(), "vmlinux/vmlinux.h", "vmlinux-v3.3-gcccccccccccc.h").unwrap();
    let archive = builder.into_inner().unwrap();
    assert_eq!(
        vmlinux_h_version(&archive),
        Ok(("2.2".to_string(), "bbbbbbbbbbbb".to_string()))
    );
}

#[test]
fn an_archive_without_the_link_gives_not_found() {
    assert_eq!(vmlinux_h_version(&[]), Err(VersionError::NotFound));
    assert_eq!(vmlinux_h_version(&[0u8; 1024]), Err(VersionError::NotFound));
    let mut builder = tar::Builder::new(Vec::new());
    builder.append_data(&mut file_header(2), "vmlinux/other.h", &b"a\n"[..]).unwrap();
    let archive = builder.into_inner().unwrap();
    assert_eq!(vmlinux_h_version(&archive), Err(VersionError::NotFound));
}

#[test]
fn a_plain_file_gives_not_a_link() {
    let mut builder = tar::Builder::new(Vec::new());
    builder.append_data(&mut file_header(2), "vmlinux/vmlinux.h", &b"a\n"[..]).unwrap();
    let archive = builder.into_inner().unwrap();
    assert_eq!(vmlinux_h_version(&archive), Err(VersionError::NotALink));
}

#[test]
fn a_link_to_another_name_gives_bad_link_name() {
    assert_eq!(vmlinux_h_version(&header_archive("vmlinux-6.12.h")), Err(VersionError::BadLinkName));
    assert_eq!(
        vmlinux_h_version(&header_archive("vmlinux-v6.12.h")),
        Err(VersionError::BadLinkName)
    );
    assert_eq!(
        vmlinux_h_version(&header_archive("vmlinux-v6.12-g0123456789ab.c")),
        Err(VersionError::BadLinkName)
    );
}

#[test]
fn a_damaged_archive_gives_unreadable() {
    assert_eq!(vmlinux_h_version(&[7u8; 100]), Err(VersionError::Unreadable));
    assert_eq!(vmlinux_h_version(&[7u8; 512]), Err(VersionError::Unreadable));
    let mut archive = header_archive("vmlinux-v6.12-g0123456789ab.h");
    // Break the checksum of the first header.
    archive[0] ^= 0xff;
    assert_eq!(vmlinux_h_version(&archive), Err(VersionError::Unreadable));
}

#[test]
fn damage_behind_the_link_is_not_looked_at() {
    let mut archive = header_archive("vmlinux-v6.12-g0123456789ab.h");
    let len = archive.len();
    // The end-of-archive blocks become a header with a wrong checksum.
    archive[len - 1024] = b'x';
    assert_eq!(
        vmlinux_h_version(&archive),
        Ok(("6.12".to_string(), "0123456789ab".to_string()))
    );
}

#[test]
fn the_path_in_the_header_is_compared_as_a_path() {
    // The builder writes paths in normal form, so the name field is written
    // by hand here.
    let mut header = link_header();
    let name = b"vmlinux//vmlinux.h";
    header.as_old_mut().name[..name.len()].copy_from_slice(name);
    header.set_link_name("vmlinux-v6.12-g0123456789ab.h").unwrap();
    header.set_cksum();
    let mut builder = tar::Builder::new(Vec::new());
    builder.append(&header, &b""[..]).unwrap();
    let archive = builder.into_inner().unwrap();
    assert_eq!(
        vmlinux_h_version(&archive),
        Ok(("6.12".to_string(), "0123456789ab".to_string()))
    );
}

#[test]
fn scan_of_no_members_finds_nothing() {
    assert_eq!(version_of_members(&vec![]), Err(VersionError::NotFound));
}

#[test]
fn scan_stops_at_the_first_match() {
    let members = vec![
        entry("vmlinux/a.h", LinkName::Absent),
        entry("vmlinux/b.h", present("vmlinux-v1.1-gaaaaaaaaaaaa.h")),
        entry(VMLINUX_H, present("vmlinux-v2.2-gbbbbbbbbbbbb.h")),
        entry(VMLINUX_H, LinkName::Absent),
        Member::Unreadable,
    ];
    assert_eq!(
        version_of_members(&members),
        Ok(("2.2".to_string(), "bbbbbbbbbbbb".to_string()))
    );
}

#[test]
fn scan_stops_at_an_unreadable_member() {
    let members = vec![
        entry("vmlinux/a.h", LinkName::Absent),
        Member::Unreadable,
        entry(VMLINUX_H, present("vmlinux-v2.2-gbbbbbbbbbbbb.h")),
    ];
    assert_eq!(version_of_members(&members), Err(VersionError::Unreadable));
}

#[test]
fn scan_reports_each_state_of_the_link() {
    assert_eq!(
        version_of_members(&vec![entry(VMLINUX_H, LinkName::Unreadable)]),
        Err(VersionError::Unreadable)
    );
    assert_eq!(
        version_of_members(&vec![entry(VMLINUX_H, LinkName::Absent)]),
        Err(VersionError::NotALink)
    );
    assert_eq!(
        version_of_members(&vec![entry(VMLINUX_H, present("vmlinux.h"))]),
        Err(VersionError::BadLinkName)
    );
    assert_eq!(
        version_of_members(&vec![entry(VMLINUX_H, present("vmlinux-v6.1-g0123456789ab.h"))]),
        Ok(("6.1".to_string(), "0123456789ab".to_string()))
    );
}

#[test]
fn scan_does_not_read_the_links_of_other_members() {
    let members = vec![
        entry("vmlinux/a.h", LinkName::Unreadable),
        entry("vmlinux/b.h", present("no version here")),
        entry(VMLINUX_H, present("vmlinux-v6.1-g0123456789ab.h")),
    ];
    assert_eq!(
        version_of_members(&members),
        Ok(("6.1".to_string(), "0123456789ab".to_string()))
    );
}

#[test]
fn scan_compares_paths_by_their_components() {
    let link = || present("vmlinux-v6.1-g0123456789ab.h");
    let found = Ok(("6.1".to_string(), "0123456789ab".to_string()));
    assert_eq!(version_of_members(&vec![entry("vmlinux//vmlinux.h", link())]), found);
    assert_eq!(version_of_members(&vec![entry("vmlinux/./vmlinux.h", link())]), found);
    assert_eq!(version_of_members(&vec![entry("vmlinux/vmlinux.h/", link())]), found);
    assert_eq!(
        version_of_members(&vec![entry("./vmlinux/vmlinux.h", link())]),
        Err(VersionError::NotFound)
    );
    assert_eq!(
        version_of_members(&vec![entry("vmlinux.h", link())]),
        Err(VersionError::NotFound)
    );
    assert_eq!(
        version_of_members(&vec![entry("/vmlinux/vmlinux.h", link())]),
        Err(VersionError::NotFound)
    );
}

#[test]
fn members_are_read_in_the_order_of_the_archive() {
    let mut builder = tar::Builder::new(Vec::new());
    builder.append_data(&mut file_header(2), "vmlinux/a.h", &b"a\n"[..]).unwrap();
    builder.append_link(&mut link_header(), "vmlinux/vmlinux.h", "a.h").unwrap();
    builder.append_data(&mut file_header(0), "b.h", &b""[..]).unwrap();
    let archive = builder.into_inner().unwrap();
    assert_eq!(
        read_members(&archive),
        vec![
            entry("vmlinux/a.h", LinkName::Absent),
            entry("vmlinux/vmlinux.h", present("a.h")),
            entry("b.h", LinkName::Absent),
        ]
    );
}

#[test]
fn no_member_is_read_behind_a_damaged_one() {
    let mut builder = tar::Builder::new(Vec::new());
    builder.append_data(&mut file_header(2), "a.h", &b"a\n"[..]).unwrap();
    builder.append_data(&mut file_header(2), "b.h", &b"b\n"[..]).unwrap();
    builder.append_data(&mut file_header(2), "c.h", &b"c\n"[..]).unwrap();
    let mut archive = builder.into_inner().unwrap();
    // Each member takes a header block and a data block: break the second
    // header.
    archive[1024] ^= 0xff;
    assert_eq!(
        read_members(&archive),
        vec![entry("a.h", LinkName::Absent), Member::Unreadable]
    );
    assert_eq!(read_members(&[]), vec![]);
    assert_eq!(read_members(&[1u8; 10]), vec![Member::Unreadable]);
}

#[test]
fn a_long_link_name_is_read_whole() {
    let hash = "0123456789ab".repeat(20);
    let link_name = format!("vmlinux-v6.12-g{}.h", hash);
    let mut builder = tar::Builder::new(Vec::new());
    builder.append_link(&mut link_header(), "vmlinux/vmlinux.h", &link_name).unwrap();
    let archive = builder.into_inner().unwrap();
    assert_eq!(vmlinux_h_version(&archive), Ok(("6.12".to_string(), hash)));
}

#[test]
fn a_link_name_that_is_not_utf8_is_read_with_replacements() {
    let mut header = link_header();
    header.set_path("vmlinux/vmlinux.h").unwrap();
    let name = b"vmlinux-v6.\xff-g0123456789ab.h";
    header.as_old_mut().linkname[..name.len()].copy_from_slice(name);
    header.set_cksum();
    let mut builder = tar::Builder::new(Vec::new());
    builder.append(&header, &b""[..]).unwrap();
    let archive = builder.into_inner().unwrap();
    assert_eq!(
        vmlinux_h_version(&archive),
        Ok(("6.\u{fffd}".to_string(), "0123456789ab".to_string()))
    );
}

/// The header of a sparse member that says it goes on in extension blocks,
/// with a size that puts the next header at the very end of what a position
/// can hold, and one extension block behind it.
fn forged_sparse_member() -> Vec<u8> {
    let mut header = tar::Header::new_gnu();
    header.set_path("vmlinux/sparse").unwrap();
    header.set_entry_type(tar::EntryType::GNUSparse);
    header.set_size(u64::MAX - 1100);
    header.as_gnu_mut().unwrap().set_is_extended(true);
    header.set_cksum();
    let mut bytes = header.as_bytes().to_vec();
    bytes.extend_from_slice(&[0u8; 512]);
    bytes
}

#[test]
fn a_forged_sparse_header_is_not_read() {
    let forged = forged_sparse_member();
    assert_eq!(walked(&forged), 0);
    assert_eq!(read_members(&forged), vec![Member::Unreadable]);
    assert_eq!(vmlinux_h_version(&forged), Err(VersionError::Unreadable));
}

#[test]
fn a_forged_sparse_header_behind_the_link_is_not_looked_at() {
    let mut archive = header_archive("vmlinux-v6.12-g0123456789ab.h");
    // Drop the two blocks that end the archive and go on with the forged
    // member.
    let len = archive.len() - 1024;
    archive.truncate(len);
    archive.extend_from_slice(&forged_sparse_member());
    assert_eq!(walked(&archive), len);
    assert_eq!(
        vmlinux_h_version(&archive),
        Ok(("6.12".to_string(), "0123456789ab".to_string()))
    );
    assert_eq!(
        read_members(&archive),
        vec![
            entry("vmlinux/vmlinux-v6.12-g0123456789ab.h", LinkName::Absent),
            entry("vmlinux/vmlinux.h", present("vmlinux-v6.12-g0123456789ab.h")),
            Member::Unreadable,
        ]
    );
}

#[test]
fn a_forged_sparse_header_before_the_link_gives_unreadable() {
    let mut archive = forged_sparse_member();
    archive.extend_from_slice(&header_archive("vmlinux-v6.12-g0123456789ab.h"));
    assert_eq!(walked(&archive), 0);
    assert_eq!(vmlinux_h_version(&archive), Err(VersionError::Unreadable));
    let mut builder = tar::Builder::new(Vec::new());
    builder.append_data(&mut file_header(2), "vmlinux/a.h", &b"a\n"[..]).unwrap();
    let mut archive = builder.into_inner().unwrap();
    archive.truncate(1024);
    archive.extend_from_slice(&forged_sparse_member());
    archive.extend_from_slice(&header_archive("vmlinux-v6.12-g0123456789ab.h"));
    assert_eq!(walked(&archive), 1024);
    assert_eq!(vmlinux_h_version(&archive), Err(VersionError::Unreadable));
}

#[test]
fn a_sparse_member_without_extension_blocks_is_read() {
    let mut header = tar::Header::new_gnu();
    header.set_path("vmlinux/sparse").unwrap();
    header.set_entry_type(tar::EntryType::GNUSparse);
    header.set_size(0);
    header.as_gnu_mut().unwrap().set_real_size(0);
    header.set_cksum();
    let mut archive = header.as_bytes().to_vec();
    archive.extend_from_slice(&header_archive("vmlinux-v6.12-g0123456789ab.h"));
    assert_eq!(walked(&archive), archive.len());
    assert_eq!(
        vmlinux_h_version(&archive),
        Ok(("6.12".to_string(), "0123456789ab".to_string()))
    );
}

#[test]
fn only_whole_blocks_at_multiples_of_the_block_length_count() {
    // Type flag and extension flag one byte too far.
    let mut bytes = vec![0u8; 1024];
    bytes[157] = b'S';
    bytes[483] = 1;
    assert_eq!(walked(&bytes), 1024);
    // Only one of the two.
    let mut bytes = vec![0u8; 1024];
    bytes[156] = b'S';
    bytes[512 + 482] = 1;
    assert_eq!(walked(&bytes), 1024);
    // Both, in a block that is cut short.
    let mut bytes = vec![0u8; 1023];
    bytes[512 + 156] = b'S';
    bytes[512 + 482] = 1;
    assert_eq!(walked(&bytes), 1023);
    assert_eq!(read_members(&bytes), vec![]);
    // Both, in the second and in the third block: the first one counts.
    let mut bytes = vec![0u8; 2048];
    bytes[512 + 156] = b'S';
    bytes[512 + 482] = 1;
    bytes[1024 + 156] = b'S';
    bytes[1024 + 482] = 1;
    assert_eq!(walked(&bytes), 512);
    assert_eq!(read_members(&bytes), vec![Member::Unreadable]);
    assert_eq!(walked(&[]), 0);
    assert_eq!(walked(&[b'S'; 511]), 511);
}
