use fuser::data::KernelConfig;
use fuser::event_loop::{EventLoop, FsStatus, LoopAction, LoopEvent, LoopFlavor};
use fuser::poll::PollData;
use fuser::abi::{push_u32, push_u64};
use fuser::data::FileType;
use fuser::dirent::{dir_listing, DirEntryData};
use fuser::dispatch::Refusal;
use fuser::notify::poll_message;
use fuser::reply::{message, ReplyHandler, ReplySender};
use fuser::request::{read_u32, read_u64};
use std::cell::RefCell;
use std::rc::Rc;

struct Recorder(Rc<RefCell<Vec<Vec<u8>>>>);

impl ReplySender for Recorder {
    fn send(&self, data: &[u8]) -> Result<(), std::io::Error> {
        self.0.borrow_mut().push(data.to_vec());
        Ok(())
    }
}

#[test]
fn reading_back_what_was_written() {
    for x in [0u32, 1, 0x1234_5678, u32::MAX] {
        let mut out = Vec::new();
        push_u32(&mut out, x);
        assert_eq!(read_u32(&out, 0), x);
    }
    for x in [0u64, 7, 0x0102_0304_0506_0708, u64::MAX] {
        let mut out = Vec::new();
        push_u64(&mut out, x);
        assert_eq!(read_u64(&out, 0), x);
    }
}

#[test]
fn messages_announce_length_and_request() {
    let m = message(0xabc, -2, &[1, 2, 3, 4, 5]).unwrap();
    assert_eq!(read_u32(&m, 0) as usize, m.len());
    assert_eq!(read_u64(&m, 8), 0xabc);
    assert_eq!(&m[16..], &[1, 2, 3, 4, 5]);
    let n = poll_message(4);
    assert_eq!(read_u32(&n, 0) as usize, n.len());
    assert_eq!(read_u64(&n, 8), 0);
}

#[test]
fn refusals_are_answered_with_their_errno() {
    let log = Rc::new(RefCell::new(Vec::new()));
    for (refusal, errno) in [
        (Refusal::NotImplemented, libc::ENOSYS),
        (Refusal::AccessDenied, libc::EACCES),
        (Refusal::ProtocolTooOld, libc::EPROTO),
        (Refusal::InvalidState, libc::EIO),
    ] {
        assert_eq!(refusal.errno(), errno);
        ReplyHandler::new(9, Recorder(log.clone())).error(refusal.errno());
        let m = log.borrow().last().unwrap().clone();
        assert_eq!(m.len(), 16);
        assert_eq!(&m[4..8], &(-errno).to_le_bytes());
    }
}

#[test]
fn listings_stay_within_their_size() {
    let entries: Vec<DirEntryData> = (0..50)
        .map(|i| DirEntryData { ino: i, offset: i as i64, kind: FileType::RegularFile, name: vec![b'a'; (i % 13) as usize] })
        .collect();
    for size in [0usize, 8, 31, 32, 100, 1000, 4096] {
        let l = dir_listing(&entries, size);
        assert!(l.len() <= size);
        assert_eq!(l.len() % 8, 0);
        // A larger limit only extends the listing.
        let bigger = dir_listing(&entries, size + 64);
        assert_eq!(&bigger[..l.len()], &l[..]);
    }
}

#[test]
fn setter_errors_name_an_accepted_value() {
    let mut c = KernelConfig::new(0, 4096);
    let e = c.set_max_write(0).unwrap_err();
    assert!(c.set_max_write(e).is_ok());
    let e = c.set_max_readahead(1 << 20).unwrap_err();
    assert!(c.set_max_readahead(e).is_ok());
    let e = c.set_max_stack_depth(9).unwrap_err();
    assert!(c.set_max_stack_depth(e).is_ok());
    let e = c.set_max_background(0).unwrap_err();
    assert!(c.set_max_background(e).is_ok());
    let e = c.set_time_granularity_nanos(12345).unwrap_err();
    assert!(c.set_time_granularity_nanos(e as u128).is_ok());
}

#[test]
fn setters_return_what_undoes_them() {
    let mut c = KernelConfig::new(0, 4096);
    let before = c.set_max_write(8192).unwrap();
    assert_eq!(c.set_max_write(before), Ok(8192));
    let before = c.set_max_readahead(1024).unwrap();
    assert_eq!(c.set_max_readahead(before), Ok(1024));
    let threshold = c.congestion_threshold();
    let before = c.set_congestion_threshold(3).unwrap();
    assert_eq!(before, threshold);
    c.set_congestion_threshold(before).unwrap();
    assert_eq!(c.congestion_threshold(), threshold);
}

#[test]
fn unregister_undoes_register() {
    let mut p = PollData::new(None);
    p.register_poll_handle(1, 10, 1);
    let registered = p.registered_poll_handles.clone();
    let handles = p.inode_poll_handles.clone();
    p.register_poll_handle(2, 10, 1);
    p.unregister_poll_handle(2);
    assert_eq!(p.registered_poll_handles, registered);
    assert_eq!(p.inode_poll_handles, handles);
    p.register_poll_handle(3, 11, 1);
    p.unregister_poll_handle(3);
    assert_eq!(p.inode_poll_handles, handles);
    p.mark_inode_ready(12, 1);
    p.mark_inode_not_ready(12);
    assert!(p.ready_inodes.is_empty());
}

#[test]
fn finished_loops_stay_finished() {
    let mut l = EventLoop::new(true, LoopFlavor::Async);
    l.on_event(LoopEvent::BufferLost);
    for e in [
        LoopEvent::NotificationsEmpty,
        LoopEvent::RequestHandled { valid: true },
        LoopEvent::Heartbeat(FsStatus::Ready),
        LoopEvent::ReceiveFailed,
    ] {
        l.on_event(e);
        assert_eq!(l.next_action(), LoopAction::Finish);
    }
}
