use fuser::time::{Timestamp, Ttl};
use fuser::callback::{CallbackDirectoryPlus, CallbackOpen, DirectoryPlusHandler};
use fuser::abi::push_u16;
use fuser::byte_box::ByteBox;
use fuser::data::{FileAttr, FileType};
use fuser::dirent::{DirEntryData, DirEntryPlusData};
use fuser::reply::{Attr, Entry, Lock, Open, ReplyHandler, ReplySender, Statfs, XTimes, Xattr};
use std::cell::RefCell;
use std::rc::Rc;
use std::time::{Duration, UNIX_EPOCH};

/// Panics if the message it is handed differs from the one expected.
struct AssertSender {
    expected: Vec<u8>,
}

impl ReplySender for AssertSender {
    fn send(&self, data: &[u8]) -> Result<(), std::io::Error> {
        assert_eq!(self.expected, data.to_vec());
        Ok(())
    }
}

/// Keeps the last message it is handed.
#[derive(Clone)]
struct TestSender {
    sent_data: Rc<RefCell<Option<Vec<u8>>>>,
}

impl ReplySender for TestSender {
    fn send(&self, data: &[u8]) -> Result<(), std::io::Error> {
        *self.sent_data.borrow_mut() = Some(data.to_vec());
        Ok(())
    }
}

fn epoch() -> Timestamp {
    Timestamp::from_system_time(&UNIX_EPOCH)
}

fn sample_attr(blksize: u32) -> FileAttr {
    let time = Timestamp::from_system_time(&(UNIX_EPOCH + Duration::new(0x1234, 0x5678)));
    FileAttr {
        ino: 0x11,
        size: 0x22,
        blocks: 0x33,
        atime: time,
        mtime: time,
        ctime: time,
        crtime: time,
        kind: FileType::RegularFile,
        perm: 0o644,
        nlink: 0x55,
        uid: 0x66,
        gid: 0x77,
        rdev: 0x88,
        flags: 0x99,
        blksize,
    }
}

#[test]
fn reply_raw() {
    // The bytes of a record { a: u8 = 0x12, b: u8 = 0x34, c: u16 = 0x5678 }.
    let mut raw: Vec<u8> = vec![0x12, 0x34];
    push_u16(&mut raw, 0x5678);
    let sender = AssertSender {
        expected: vec![
            0x14, 0x00, 0x00, 0x00, 0x00, 0x00, 0x00, 0x00, 0xef, 0xbe, 0xad, 0xde, 0x00, 0x00,
            0x00, 0x00, 0x12, 0x34, 0x78, 0x56,
        ],
    };
    let replyhandler = ReplyHandler::new(0xdeadbeef, sender);
    replyhandler.data(&raw);
}

#[test]
fn reply_error() {
    let sender = AssertSender {
        expected: vec![
            0x10, 0x00, 0x00, 0x00, 0xbe, 0xff, 0xff, 0xff, 0xef, 0xbe, 0xad, 0xde, 0x00, 0x00,
            0x00, 0x00,
        ],
    };
    let replyhandler = ReplyHandler::new(0xdeadbeef, sender);
    replyhandler.error(66);
}

#[test]
fn reply_empty() {
    let sender = AssertSender {
        expected: vec![
            0x10, 0x00, 0x00, 0x00, 0x00, 0x00, 0x00, 0x00, 0xef, 0xbe, 0xad, 0xde, 0x00, 0x00,
            0x00, 0x00,
        ],
    };
    let replyhandler = ReplyHandler::new(0xdeadbeef, sender);
    replyhandler.ok();
}

#[test]
fn reply_data() {
    let sender = AssertSender {
        expected: vec![
            0x14, 0x00, 0x00, 0x00, 0x00, 0x00, 0x00, 0x00, 0xef, 0xbe, 0xad, 0xde, 0x00, 0x00,
            0x00, 0x00, 0xde, 0xad, 0xbe, 0xef,
        ],
    };
    let replyhandler = ReplyHandler::new(0xdeadbeef, sender);
    replyhandler.data(&[0xde, 0xad, 0xbe, 0xef]);
}

#[test]
fn reply_entry() {
    let mut expected = vec![
        0x88, 0x00, 0x00, 0x00, 0x00, 0x00, 0x00, 0x00, 0xef, 0xbe, 0xad, 0xde, 0x00, 0x00,
        0x00, 0x00, 0x11, 0x00, 0x00, 0x00, 0x00, 0x00, 0x00, 0x00, 0xaa, 0x00, 0x00, 0x00,
        0x00, 0x00, 0x00, 0x00, 0x65, 0x87, 0x00, 0x00, 0x00, 0x00, 0x00, 0x00, 0x65, 0x87,
        0x00, 0x00, 0x00, 0x00, 0x00, 0x00, 0x21, 0x43, 0x00, 0x00, 0x21, 0x43, 0x00, 0x00,
        0x11, 0x00, 0x00, 0x00, 0x00, 0x00, 0x00, 0x00, 0x22, 0x00, 0x00, 0x00, 0x00, 0x00,
        0x00, 0x00, 0x33, 0x00, 0x00, 0x00, 0x00, 0x00, 0x00, 0x00, 0x34, 0x12, 0x00, 0x00,
        0x00, 0x00, 0x00, 0x00, 0x34, 0x12, 0x00, 0x00, 0x00, 0x00, 0x00, 0x00, 0x34, 0x12,
        0x00, 0x00, 0x00, 0x00, 0x00, 0x00, 0x78, 0x56, 0x00, 0x00, 0x78, 0x56, 0x00, 0x00,
        0x78, 0x56, 0x00, 0x00, 0xa4, 0x81, 0x00, 0x00, 0x55, 0x00, 0x00, 0x00, 0x66, 0x00,
        0x00, 0x00, 0x77, 0x00, 0x00, 0x00, 0x88, 0x00, 0x00, 0x00,
    ];
    expected.extend(vec![0xbb, 0x00, 0x00, 0x00, 0x00, 0x00, 0x00, 0x00]);
    expected[0] = expected.len() as u8;

    let sender = AssertSender { expected };
    let replyhandler = ReplyHandler::new(0xdeadbeef, sender);
    let ttl = Ttl::from_duration(&Duration::new(0x8765, 0x4321));
    replyhandler.entry(Entry { attr: sample_attr(0xbb), ttl, generation: 0xaa });
}

#[test]
fn reply_attr() {
    let mut expected = vec![
        0x70, 0x00, 0x00, 0x00, 0x00, 0x00, 0x00, 0x00, 0xef, 0xbe, 0xad, 0xde, 0x00, 0x00,
        0x00, 0x00, 0x65, 0x87, 0x00, 0x00, 0x00, 0x00, 0x00, 0x00, 0x21, 0x43, 0x00, 0x00,
        0x00, 0x00, 0x00, 0x00, 0x11, 0x00, 0x00, 0x00, 0x00, 0x00, 0x00, 0x00, 0x22, 0x00,
        0x00, 0x00, 0x00, 0x00, 0x00, 0x00, 0x33, 0x00, 0x00, 0x00, 0x00, 0x00, 0x00, 0x00,
        0x34, 0x12, 0x00, 0x00, 0x00, 0x00, 0x00, 0x00, 0x34, 0x12, 0x00, 0x00, 0x00, 0x00,
        0x00, 0x00, 0x34, 0x12, 0x00, 0x00, 0x00, 0x00, 0x00, 0x00, 0x78, 0x56, 0x00, 0x00,
        0x78, 0x56, 0x00, 0x00, 0x78, 0x56, 0x00, 0x00, 0xa4, 0x81, 0x00, 0x00, 0x55, 0x00,
        0x00, 0x00, 0x66, 0x00, 0x00, 0x00, 0x77, 0x00, 0x00, 0x00, 0x88, 0x00, 0x00, 0x00,
    ];
    expected.extend_from_slice(&[0xbb, 0x00, 0x00, 0x00, 0x00, 0x00, 0x00, 0x00]);
    expected[0] = expected.len() as u8;

    let sender = AssertSender { expected };
    let replyhandler = ReplyHandler::new(0xdeadbeef, sender);
    let ttl = Ttl::from_duration(&Duration::new(0x8765, 0x4321));
    replyhandler.attr(Attr { attr: sample_attr(0xbb), ttl });
}

#[test]
fn reply_xtimes() {
    let sender = AssertSender {
        expected: vec![
            0x28, 0x00, 0x00, 0x00, 0x00, 0x00, 0x00, 0x00, 0xef, 0xbe, 0xad, 0xde, 0x00, 0x00,
            0x00, 0x00, 0x34, 0x12, 0x00, 0x00, 0x00, 0x00, 0x00, 0x00, 0x34, 0x12, 0x00, 0x00,
            0x00, 0x00, 0x00, 0x00, 0x78, 0x56, 0x00, 0x00, 0x78, 0x56, 0x00, 0x00,
        ],
    };
    let replyhandler = ReplyHandler::new(0xdeadbeef, sender);
    let time = Timestamp::from_system_time(&(UNIX_EPOCH + Duration::new(0x1234, 0x5678)));
    replyhandler.xtimes(XTimes { bkuptime: time, crtime: time });
}

#[test]
fn reply_open() {
    let sender = AssertSender {
        expected: vec![
            0x20, 0x00, 0x00, 0x00, 0x00, 0x00, 0x00, 0x00, 0xef, 0xbe, 0xad, 0xde, 0x00, 0x00,
            0x00, 0x00, 0x22, 0x11, 0x00, 0x00, 0x00, 0x00, 0x00, 0x00, 0x33, 0x00, 0x00, 0x00,
            0x00, 0x00, 0x00, 0x00,
        ],
    };
    let replyhandler = ReplyHandler::new(0xdeadbeef, sender);
    replyhandler.opened(Open { fh: 0x1122, flags: 0x33, backing_id: None });
}

#[test]
fn reply_write() {
    let sender = AssertSender {
        expected: vec![
            0x18, 0x00, 0x00, 0x00, 0x00, 0x00, 0x00, 0x00, 0xef, 0xbe, 0xad, 0xde, 0x00, 0x00,
            0x00, 0x00, 0x22, 0x11, 0x00, 0x00, 0x00, 0x00, 0x00, 0x00,
        ],
    };
    let replyhandler = ReplyHandler::new(0xdeadbeef, sender);
    replyhandler.written(0x1122);
}

#[test]
fn reply_statfs() {
    let sender = AssertSender {
        expected: vec![
            0x60, 0x00, 0x00, 0x00, 0x00, 0x00, 0x00, 0x00, 0xef, 0xbe, 0xad, 0xde, 0x00, 0x00,
            0x00, 0x00, 0x11, 0x00, 0x00, 0x00, 0x00, 0x00, 0x00, 0x00, 0x22, 0x00, 0x00, 0x00,
            0x00, 0x00, 0x00, 0x00, 0x33, 0x00, 0x00, 0x00, 0x00, 0x00, 0x00, 0x00, 0x44, 0x00,
            0x00, 0x00, 0x00, 0x00, 0x00, 0x00, 0x55, 0x00, 0x00, 0x00, 0x00, 0x00, 0x00, 0x00,
            0x66, 0x00, 0x00, 0x00, 0x77, 0x00, 0x00, 0x00, 0x88, 0x00, 0x00, 0x00, 0x00, 0x00,
            0x00, 0x00, 0x00, 0x00, 0x00, 0x00, 0x00, 0x00, 0x00, 0x00, 0x00, 0x00, 0x00, 0x00,
            0x00, 0x00, 0x00, 0x00, 0x00, 0x00, 0x00, 0x00, 0x00, 0x00, 0x00, 0x00,
        ],
    };
    let replyhandler = ReplyHandler::new(0xdeadbeef, sender);
    replyhandler.statfs(Statfs {
        blocks: 0x11,
        bfree: 0x22,
        bavail: 0x33,
        files: 0x44,
        ffree: 0x55,
        bsize: 0x66,
        namelen: 0x77,
        frsize: 0x88,
    });
}

#[test]
fn reply_create() {
    let mut expected = vec![
        0x98, 0x00, 0x00, 0x00, 0x00, 0x00, 0x00, 0x00, 0xef, 0xbe, 0xad, 0xde, 0x00, 0x00,
        0x00, 0x00, 0x11, 0x00, 0x00, 0x00, 0x00, 0x00, 0x00, 0x00, 0xaa, 0x00, 0x00, 0x00,
        0x00, 0x00, 0x00, 0x00, 0x65, 0x87, 0x00, 0x00, 0x00, 0x00, 0x00, 0x00, 0x65, 0x87,
        0x00, 0x00, 0x00, 0x00, 0x00, 0x00, 0x21, 0x43, 0x00, 0x00, 0x21, 0x43, 0x00, 0x00,
        0x11, 0x00, 0x00, 0x00, 0x00, 0x00, 0x00, 0x00, 0x22, 0x00, 0x00, 0x00, 0x00, 0x00,
        0x00, 0x00, 0x33, 0x00, 0x00, 0x00, 0x00, 0x00, 0x00, 0x00, 0x34, 0x12, 0x00, 0x00,
        0x00, 0x00, 0x00, 0x00, 0x34, 0x12, 0x00, 0x00, 0x00, 0x00, 0x00, 0x00, 0x34, 0x12,
        0x00, 0x00, 0x00, 0x00, 0x00, 0x00, 0x78, 0x56, 0x00, 0x00, 0x78, 0x56, 0x00, 0x00,
        0x78, 0x56, 0x00, 0x00, 0xa4, 0x81, 0x00, 0x00, 0x55, 0x00, 0x00, 0x00, 0x66, 0x00,
        0x00, 0x00, 0x77, 0x00, 0x00, 0x00, 0x88, 0x00, 0x00, 0x00, 0xbb, 0x00, 0x00, 0x00,
        0x00, 0x00, 0x00, 0x00, 0x0f, 0x00, 0x00, 0x00, 0x00, 0x00, 0x00, 0x00,
    ];
    let insert_at = expected.len() - 16;
    expected.splice(insert_at..insert_at, vec![0xdd, 0x00, 0x00, 0x00, 0x00, 0x00, 0x00, 0x00]);
    expected[0] = expected.len() as u8;

    let sender = AssertSender { expected };
    let replyhandler = ReplyHandler::new(0xdeadbeef, sender);
    let ttl = Ttl::from_duration(&Duration::new(0x8765, 0x4321));
    replyhandler.created(
        Entry { attr: sample_attr(0xdd), ttl, generation: 0xaa },
        Open { fh: 0xbb, flags: 0x0f, backing_id: None },
    );
}

#[test]
fn reply_lock() {
    let sender = AssertSender {
        expected: vec![
            0x28, 0x00, 0x00, 0x00, 0x00, 0x00, 0x00, 0x00, 0xef, 0xbe, 0xad, 0xde, 0x00, 0x00,
            0x00, 0x00, 0x11, 0x00, 0x00, 0x00, 0x00, 0x00, 0x00, 0x00, 0x22, 0x00, 0x00, 0x00,
            0x00, 0x00, 0x00, 0x00, 0x33, 0x00, 0x00, 0x00, 0x44, 0x00, 0x00, 0x00,
        ],
    };
    let replyhandler = ReplyHandler::new(0xdeadbeef, sender);
    replyhandler.locked(Lock { start: 0x11, end: 0x22, typ: 0x33, pid: 0x44 });
}

#[test]
fn reply_bmap() {
    let sender = AssertSender {
        expected: vec![
            0x18, 0x00, 0x00, 0x00, 0x00, 0x00, 0x00, 0x00, 0xef, 0xbe, 0xad, 0xde, 0x00, 0x00,
            0x00, 0x00, 0x34, 0x12, 0x00, 0x00, 0x00, 0x00, 0x00, 0x00,
        ],
    };
    let replyhandler = ReplyHandler::new(0xdeadbeef, sender);
    replyhandler.bmap(0x1234);
}

#[test]
fn reply_directory() {
    let sent_data = Rc::new(RefCell::new(None));
    let test_sender = TestSender { sent_data: sent_data.clone() };
    let replyhandler = ReplyHandler::new(0xdeadbeef, test_sender);

    let entries_list = vec![
        DirEntryData { ino: 0xaabb, offset: 1, kind: FileType::Directory, name: b"hello".to_vec() },
        DirEntryData { ino: 0xccdd, offset: 2, kind: FileType::RegularFile, name: b"world.rs".to_vec() },
    ];
    replyhandler.dir(&entries_list, std::mem::size_of::<u8>() * 128);

    let sent = sent_data.borrow();
    assert!(sent.is_some(), "Data should have been sent by dir");
    if let Some(data) = sent.as_ref() {
        assert!(data.len() > 16, "Sent data should be more than just a header for non-empty entries_list");
    }
}

#[test]
fn reply_dirplus() {
    let sent_data = Rc::new(RefCell::new(None));
    let test_sender = TestSender { sent_data: sent_data.clone() };
    let replyhandler = ReplyHandler::new(0xdeadbeef, test_sender);

    let attr1 = FileAttr {
        ino: 0xaabb, size: 0, blocks: 0, atime: epoch(), mtime: epoch(), ctime: epoch(),
        crtime: epoch(), kind: FileType::Directory, perm: 0o755, nlink: 2, uid: 1000, gid: 1000,
        rdev: 0, blksize: 4096, flags: 0,
    };
    let attr2 = FileAttr {
        ino: 0xccdd, size: 10, blocks: 1, atime: epoch(), mtime: epoch(), ctime: epoch(),
        crtime: epoch(), kind: FileType::RegularFile, perm: 0o644, nlink: 1, uid: 1000, gid: 1000,
        rdev: 0, blksize: 4096, flags: 0,
    };
    let plus_data1 = DirEntryPlusData {
        entry_data: DirEntryData { ino: 0xaabb, offset: 1, kind: FileType::Directory, name: b"hello".to_vec() },
        attr_entry: Entry { attr: attr1, ttl: Ttl::from_duration(&Duration::from_secs(1)), generation: 1 },
    };
    let plus_data2 = DirEntryPlusData {
        entry_data: DirEntryData { ino: 0xccdd, offset: 2, kind: FileType::RegularFile, name: b"world.rs".to_vec() },
        attr_entry: Entry { attr: attr2, ttl: Ttl::from_duration(&Duration::from_secs(1)), generation: 1 },
    };
    let entries_list = vec![plus_data1, plus_data2];
    replyhandler.dirplus(&entries_list, std::mem::size_of::<u8>() * 256);

    let sent = sent_data.borrow();
    assert!(sent.is_some(), "Data should have been sent by dirplus");
    if let Some(data) = sent.as_ref() {
        assert!(data.len() > 16, "Sent data should be more than just a header for non-empty entries_list. Actual length: {}", data.len());
    }
}

#[test]
fn reply_xattr_size() {
    let sender = AssertSender {
        expected: vec![
            0x18, 0x00, 0x00, 0x00, 0x00, 0x00, 0x00, 0x00, 0xEF, 0xBE, 0xAD, 0xDE, 0x00, 0x00,
            0x00, 0x00, 0x78, 0x56, 0x34, 0x12, 0x00, 0x00, 0x00, 0x00,
        ],
    };
    let replyhandler = ReplyHandler::new(0xdeadbeef, sender);
    replyhandler.xattr(Xattr::Size(0x12345678));
}

#[test]
fn reply_xattr_data() {
    let sender = AssertSender {
        expected: vec![
            0x14, 0x00, 0x00, 0x00, 0x00, 0x00, 0x00, 0x00, 0xEF, 0xBE, 0xAD, 0xDE, 0x00, 0x00,
            0x00, 0x00, 0x11, 0x22, 0x33, 0x44,
        ],
    };
    let replyhandler = ReplyHandler::new(0xdeadbeef, sender);
    let data_vec = vec![0x11, 0x22, 0x33, 0x44];
    replyhandler.xattr(Xattr::Data(ByteBox::from(data_vec)));
}

#[test]
fn opened_passthrough_with_closed_backing_id_leaves_handler() {
    let sent = Rc::new(RefCell::new(None));
    let mut handler = Some(ReplyHandler::new(0xdeadbeef, TestSender { sent_data: sent.clone() }));
    handler.opened_passthrough(1, 0, 0);
    assert!(handler.is_some());
    assert!(sent.borrow().is_none());
    handler.opened_passthrough(1, 0, 5);
    assert!(handler.is_none());
    let data = sent.borrow().clone().unwrap();
    // the backing id travels in the open reply, with the passthrough flag set
    assert_eq!(u32::from_le_bytes([data[28], data[29], data[30], data[31]]), 5);
    assert_eq!(u32::from_le_bytes([data[24], data[25], data[26], data[27]]) & 0x80, 0x80);
}

#[test]
fn dirplus_add_carries_ttl_and_override() {
    let sent = Rc::new(RefCell::new(None));
    let mut h = DirectoryPlusHandler::new(4096, ReplyHandler::new(0xdeadbeef, TestSender { sent_data: sent.clone() }));
    h.attr_ttl_override();
    let attr = sample_attr(0xbb);
    let attr = FileAttr { ino: 0x11, ..attr };
    assert!(!h.add(0x11, 1, b"a", &Ttl { secs: 5, nanos: 7 }, &attr, 3));
    h.ok();
    let data = sent.borrow().clone().unwrap();
    let u64_at = |o: usize| u64::from_le_bytes(data[o..o + 8].try_into().unwrap());
    let u32_at = |o: usize| u32::from_le_bytes(data[o..o + 4].try_into().unwrap());
    assert_eq!(u64_at(16), 0x11); // nodeid
    assert_eq!(u64_at(24), 3); // generation
    assert_eq!(u64_at(32), 5); // entry_valid
    assert_eq!(u64_at(40), 0); // attr_valid, overridden
    assert_eq!(u32_at(48), 7); // entry_valid_nsec
    assert_eq!(u32_at(52), 0); // attr_valid_nsec, overridden
    assert_eq!(u64_at(144), 0x11); // dirent ino
    assert_eq!(u64_at(152), 1); // offset
    assert_eq!(u32_at(160), 1); // namelen
    assert_eq!(u32_at(164), 8); // DT_REG
}
