use fuser::time::{Timestamp, Ttl};
use fuser::data::{FileAttr, FileType};
use fuser::dirent::{dir_listing, dirplus_listing, DirEntryData, DirEntryPlusData, EntListBuf};
use fuser::reply::Entry;
use std::time::{Duration, SystemTime};

fn entry(ino: u64, offset: i64, kind: FileType, name: &str) -> DirEntryData {
    DirEntryData { ino, offset, kind, name: name.as_bytes().to_vec() }
}

#[test]
fn push_pads_to_eight_and_reports_full() {
    let mut buf = EntListBuf::new(40);
    assert!(!buf.push(&[1; 24], b"ab"));
    assert!(buf.push(&[1; 24], b"c"));
    let bytes = buf.into_bytes();
    assert_eq!(bytes.len(), 32);
    assert_eq!(&bytes[24..26], b"ab");
    assert!(bytes[26..].iter().all(|b| *b == 0));
}

#[test]
fn dir_listing_stops_at_first_entry_that_does_not_fit() {
    let entries = vec![
        entry(1, 1, FileType::Directory, "."),
        entry(1, 2, FileType::Directory, ".."),
        entry(2, 3, FileType::RegularFile, "hello.txt"),
        entry(3, 4, FileType::RegularFile, "x"),
    ];
    let all = dir_listing(&entries, 4096);
    assert_eq!(all.len(), 32 + 32 + 40 + 32);
    let some = dir_listing(&entries, 100);
    assert_eq!(some.len(), 64);
    assert_eq!(&some[32..40], &1u64.to_le_bytes());
    assert_eq!(&some[40..48], &2i64.to_le_bytes());
    assert_eq!(&some[48..52], &2u32.to_le_bytes());
    assert_eq!(&some[56..58], b"..");
    assert!(dir_listing(&entries, 10).is_empty());
    assert!(dir_listing(&[], 4096).is_empty());
}

#[test]
fn dirplus_listing_layout() {
    let t = Timestamp::from_system_time(&(SystemTime::UNIX_EPOCH + Duration::new(5, 0)));
    let attr = FileAttr {
        ino: 8,
        size: 0,
        blocks: 0,
        atime: t,
        mtime: t,
        ctime: t,
        crtime: t,
        kind: FileType::Directory,
        perm: 0o755,
        nlink: 2,
        uid: 0,
        gid: 0,
        rdev: 0,
        blksize: 4096,
        flags: 0,
    };
    let entries = vec![DirEntryPlusData {
        entry_data: entry(8, 1, FileType::Directory, "sub"),
        attr_entry: Entry { attr, ttl: Ttl::from_duration(&Duration::new(1, 500)), generation: 2 },
    }];
    let l = dirplus_listing(&entries, 4096);
    assert_eq!(l.len(), 160);
    assert_eq!(&l[0..8], &8u64.to_le_bytes());
    assert_eq!(&l[8..16], &2u64.to_le_bytes());
    assert_eq!(&l[16..24], &1u64.to_le_bytes());
    assert_eq!(&l[24..32], &1u64.to_le_bytes());
    assert_eq!(&l[32..36], &500u32.to_le_bytes());
    assert_eq!(&l[148..152], &4u32.to_le_bytes());
    assert_eq!(&l[152..155], b"sub");
    assert!(dirplus_listing(&entries, 100).is_empty());
}
