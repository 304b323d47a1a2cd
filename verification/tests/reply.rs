use fuser::time::{Timestamp, Ttl};
use fuser::callback::{
    CallbackDirectory, CallbackOpen, CallbackDirectoryPlus, CallbackErr, CallbackOk, DirectoryHandler, DirectoryPlusHandler,
    ReplyData, ReplyDirectory, ReplyEmpty, ReplyEntry, ReplyWrite,
};
use fuser::data::{FileAttr, FileType};
use fuser::reply::{
    bmap_payload, error_field, message, offset_payload, open_payload, u32_payload, Entry, Lock, Open, ReplyHandler,
    ReplySender, Statfs,
};
use std::cell::RefCell;
use std::rc::Rc;
use std::time::{Duration, SystemTime};

#[derive(Clone, Debug)]
struct Recorder(Rc<RefCell<Vec<Vec<u8>>>>);

impl ReplySender for Recorder {
    fn send(&self, data: &[u8]) -> Result<(), std::io::Error> {
        self.0.borrow_mut().push(data.to_vec());
        Ok(())
    }
}

fn recorder() -> (Recorder, Rc<RefCell<Vec<Vec<u8>>>>) {
    let log = Rc::new(RefCell::new(Vec::new()));
    (Recorder(log.clone()), log)
}

fn header(len: u32, error: i32, unique: u64) -> Vec<u8> {
    let mut h = Vec::new();
    h.extend_from_slice(&len.to_le_bytes());
    h.extend_from_slice(&error.to_le_bytes());
    h.extend_from_slice(&unique.to_le_bytes());
    h
}

fn attr(ino: u64, kind: FileType, perm: u16) -> FileAttr {
    let t = Timestamp::from_system_time(&(SystemTime::UNIX_EPOCH + Duration::new(100, 7)));
    FileAttr {
        ino,
        size: 4096,
        blocks: 8,
        atime: t,
        mtime: t,
        ctime: t,
        crtime: t,
        kind,
        perm,
        nlink: 1,
        uid: 1000,
        gid: 100,
        rdev: 0,
        blksize: 512,
        flags: 0,
    }
}

#[test]
fn reply_ok_sends_bare_header() {
    let (s, log) = recorder();
    ReplyHandler::new(0xdeadbeef, s).ok();
    assert_eq!(log.borrow().as_slice(), &[header(16, 0, 0xdeadbeef)]);
}

#[test]
fn reply_error_negates_errno_and_maps_zero_to_eio() {
    let (s, log) = recorder();
    ReplyHandler::new(7, s.clone()).error(2);
    ReplyHandler::new(8, s).error(0);
    assert_eq!(log.borrow()[0], header(16, -2, 7));
    assert_eq!(log.borrow()[1], header(16, -5, 8));
    assert_eq!(error_field(libc::ENOENT), -libc::ENOENT);
    assert_eq!(error_field(i32::MIN), i32::MIN);
}

#[test]
fn reply_data_appends_payload() {
    let (s, log) = recorder();
    ReplyHandler::new(3, s).data(&[1, 2, 3]);
    let mut expected = header(19, 0, 3);
    expected.extend_from_slice(&[1, 2, 3]);
    assert_eq!(log.borrow()[0], expected);
}

#[test]
fn reply_fixed_payloads() {
    assert_eq!(u32_payload(0x1234), vec![0x34, 0x12, 0, 0, 0, 0, 0, 0]);
    assert_eq!(bmap_payload(0x0102), vec![2, 1, 0, 0, 0, 0, 0, 0]);
    assert_eq!(offset_payload(-1), vec![0xff; 8]);
    assert_eq!(open_payload(&Open { fh: 9, flags: 3, backing_id: None }), vec![9, 0, 0, 0, 0, 0, 0, 0, 3, 0, 0, 0, 0, 0, 0, 0]);
}

#[test]
fn reply_written_statfs_lock() {
    let (s, log) = recorder();
    ReplyHandler::new(1, s.clone()).written(0x10);
    ReplyHandler::new(2, s.clone()).statfs(Statfs {
        blocks: 1,
        bfree: 2,
        bavail: 3,
        files: 4,
        ffree: 5,
        bsize: 6,
        namelen: 7,
        frsize: 8,
    });
    ReplyHandler::new(3, s).locked(Lock { start: 1, end: 2, typ: 3, pid: 4 });
    let log = log.borrow();
    let mut w = header(24, 0, 1);
    w.extend_from_slice(&[0x10, 0, 0, 0, 0, 0, 0, 0]);
    assert_eq!(log[0], w);
    assert_eq!(log[1].len(), 16 + 80);
    assert_eq!(&log[1][16..24], &1u64.to_le_bytes());
    assert_eq!(&log[1][56..60], &6u32.to_le_bytes());
    assert!(log[1][72..].iter().all(|b| *b == 0));
    let mut l = header(40, 0, 3);
    l.extend_from_slice(&1u64.to_le_bytes());
    l.extend_from_slice(&2u64.to_le_bytes());
    l.extend_from_slice(&3i32.to_le_bytes());
    l.extend_from_slice(&4u32.to_le_bytes());
    assert_eq!(log[2], l);
}

#[test]
fn reply_entry_layout() {
    let (s, log) = recorder();
    let a = attr(42, FileType::RegularFile, 0o644);
    ReplyHandler::new(5, s).entry(Entry { attr: a, ttl: Ttl::from_duration(&Duration::new(3, 4)), generation: 9 });
    let m = log.borrow()[0].clone();
    assert_eq!(m.len(), 16 + 128);
    assert_eq!(&m[0..4], &144u32.to_le_bytes());
    assert_eq!(&m[16..24], &42u64.to_le_bytes()); // nodeid
    assert_eq!(&m[24..32], &9u64.to_le_bytes()); // generation
    assert_eq!(&m[32..40], &3u64.to_le_bytes()); // entry_valid
    assert_eq!(&m[40..48], &3u64.to_le_bytes()); // attr_valid
    assert_eq!(&m[48..52], &4u32.to_le_bytes()); // entry_valid_nsec
    assert_eq!(&m[52..56], &4u32.to_le_bytes()); // attr_valid_nsec
    assert_eq!(&m[56..64], &42u64.to_le_bytes()); // attr.ino
    assert_eq!(&m[80..88], &100i64.to_le_bytes()); // atime
    assert_eq!(&m[104..108], &7u32.to_le_bytes()); // atimensec
    assert_eq!(&m[116..120], &(0o100644u32).to_le_bytes()); // mode
}

#[test]
fn reply_entry_with_attr_ttl_override_zeroes_attr_validity() {
    let (s, log) = recorder();
    let mut h = ReplyHandler::new(5, s);
    h.attr_ttl_override();
    h.entry(Entry { attr: attr(1, FileType::Directory, 0o755), ttl: Ttl::from_duration(&Duration::new(3, 4)), generation: 0 });
    let m = log.borrow()[0].clone();
    assert_eq!(&m[32..40], &3u64.to_le_bytes());
    assert_eq!(&m[40..48], &0u64.to_le_bytes());
    assert_eq!(&m[52..56], &0u32.to_le_bytes());
    assert_eq!(&m[116..120], &(0o40755u32).to_le_bytes());
}

#[test]
fn reply_time_before_epoch_is_negative() {
    let (s, log) = recorder();
    let mut a = attr(1, FileType::RegularFile, 0);
    a.atime = Timestamp::from_system_time(&(SystemTime::UNIX_EPOCH - Duration::new(10, 5)));
    ReplyHandler::new(5, s).entry(Entry { attr: a, ttl: Ttl::from_duration(&Duration::new(0, 0)), generation: 0 });
    let m = log.borrow()[0].clone();
    assert_eq!(&m[80..88], &(-10i64).to_le_bytes());
    assert_eq!(&m[104..108], &5u32.to_le_bytes());
}

#[test]
fn message_refuses_oversized_payload_only_by_length() {
    let m = message(1, 0, &[]).unwrap();
    assert_eq!(m, header(16, 0, 1));
    let m = message(2, -3, &[9; 5]).unwrap();
    assert_eq!(m.len(), 21);
}

#[test]
fn callback_option_answers_once() {
    let (s, log) = recorder();
    let mut cb: Option<ReplyHandler<Recorder>> = Some(ReplyHandler::new(4, s));
    cb.ok();
    assert!(cb.is_none());
    cb.error(5);
    cb.ok();
    assert_eq!(log.borrow().len(), 1);
}

#[test]
fn reply_containers_answer_through_callback() {
    let (s, log) = recorder();
    ReplyEmpty::new(Some(ReplyHandler::new(1, s.clone()))).ok();
    ReplyData::new(Some(ReplyHandler::new(2, s.clone()))).data(&[7]);
    ReplyWrite::new(Some(ReplyHandler::new(3, s.clone()))).written(5);
    ReplyEntry::new(Some(ReplyHandler::new(4, s.clone()))).error(13);
    ReplyEntry::new(Some(ReplyHandler::new(6, s))).entry(&Ttl::from_duration(&Duration::new(1, 0)), &attr(2, FileType::Symlink, 0o777), 1);
    let log = log.borrow();
    assert_eq!(log.len(), 5);
    assert_eq!(log[0], header(16, 0, 1));
    assert_eq!(log[1][16..], [7]);
    assert_eq!(log[2][16..20], 5u32.to_le_bytes());
    assert_eq!(log[3], header(16, -13, 4));
    assert_eq!(log[4].len(), 144);
}

#[test]
fn directory_handler_fills_and_answers() {
    let (s, log) = recorder();
    let mut h = DirectoryHandler::new(64, ReplyHandler::new(11, s));
    assert!(!h.add(1, 1, FileType::Directory, b"."));
    assert!(!h.add(2, 2, FileType::RegularFile, b"hello"));
    // Each entry takes 24 header bytes plus its name, padded to 8: 32 + 32 = 64 bytes.
    assert!(h.add(3, 3, FileType::RegularFile, b"x"));
    h.ok();
    let log = log.borrow();
    let m = &log[0];
    assert_eq!(m.len(), 16 + 64);
    assert_eq!(&m[16..24], &1u64.to_le_bytes());
    assert_eq!(&m[24..32], &1i64.to_le_bytes());
    assert_eq!(&m[32..36], &1u32.to_le_bytes());
    assert_eq!(&m[36..40], &4u32.to_le_bytes()); // DT_DIR
    assert_eq!(m[40], b'.');
    assert!(m[41..48].iter().all(|b| *b == 0));
    assert_eq!(&m[68..72], &8u32.to_le_bytes()); // DT_REG
    assert_eq!(&m[72..77], b"hello");
}

#[test]
fn directory_reply_container() {
    let (s, log) = recorder();
    let mut r = ReplyDirectory::new(DirectoryHandler::new(4096, ReplyHandler::new(12, s)));
    assert!(!r.add(5, 1, FileType::Socket, b"sock"));
    r.ok();
    r.ok();
    let log = log.borrow();
    assert_eq!(log.len(), 1);
    assert_eq!(log[0].len(), 16 + 32);
    assert_eq!(&log[0][36..40], &12u32.to_le_bytes()); // DT_SOCK
}

#[test]
fn directory_plus_handler_layout() {
    let (s, log) = recorder();
    let mut h = DirectoryPlusHandler::new(4096, ReplyHandler::new(13, s));
    let a = attr(77, FileType::RegularFile, 0o600);
    assert!(!h.add(77, 1, b"file", &Ttl::from_duration(&Duration::new(2, 3)), &a, 5));
    h.ok();
    let log = log.borrow();
    let m = &log[0];
    // 128 bytes of entry, 24 of dirent, 4 of name, padded to 160.
    assert_eq!(m.len(), 16 + 160);
    assert_eq!(&m[16..24], &77u64.to_le_bytes());
    assert_eq!(&m[24..32], &5u64.to_le_bytes());
    assert_eq!(&m[32..40], &2u64.to_le_bytes());
    assert_eq!(&m[144..152], &77u64.to_le_bytes()); // dirent ino
    assert_eq!(&m[164..168], &8u32.to_le_bytes()); // DT_REG
    assert_eq!(&m[168..172], b"file");
}

#[test]
fn directory_plus_override_zeroes_attr_validity() {
    let (s, log) = recorder();
    let mut h = DirectoryPlusHandler::new(4096, ReplyHandler::new(14, s));
    h.attr_ttl_override();
    let a = attr(1, FileType::Directory, 0o700);
    assert!(!h.add(1, 1, b"d", &Ttl::from_duration(&Duration::new(2, 3)), &a, 0));
    assert!(h.add(1, 2, b"too long for the rest", &Ttl::from_duration(&Duration::new(2, 3)), &a, 0) == false);
    h.ok();
    let log = log.borrow();
    let m = &log[0];
    assert_eq!(&m[32..40], &2u64.to_le_bytes());
    assert_eq!(&m[40..48], &0u64.to_le_bytes());
}

#[test]
fn directory_handler_error_answers_once() {
    let (s, log) = recorder();
    let mut h = DirectoryHandler::new(64, ReplyHandler::new(15, s));
    h.error(libc::EIO);
    h.ok();
    assert_eq!(log.borrow().len(), 1);
    assert_eq!(log.borrow()[0], header(16, -libc::EIO, 15));
}

#[test]
fn open_passthrough_carries_backing_id() {
    assert_eq!(
        open_payload(&Open { fh: 1, flags: 0, backing_id: Some(7) }),
        vec![1, 0, 0, 0, 0, 0, 0, 0, 0, 0, 0, 0, 7, 0, 0, 0]
    );
    let (s, log) = recorder();
    let mut cb: Option<ReplyHandler<Recorder>> = Some(ReplyHandler::new(3, s));
    // A closed backing id leaves the request unanswered.
    cb.opened_passthrough(1, 2, 0);
    assert!(cb.is_some());
    cb.opened_passthrough(1, 2, 9);
    assert!(cb.is_none());
    let log = log.borrow();
    assert_eq!(log.len(), 1);
    assert_eq!(&log[0][24..28], &(2u32 | 0x80).to_le_bytes());
    assert_eq!(&log[0][28..32], &9u32.to_le_bytes());
}
