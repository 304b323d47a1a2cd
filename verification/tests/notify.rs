use fuser::notify::{
    delete_message, inval_entry_message, inval_inode_message, poll_message, store_message, NotificationHandler,
    NotificationKind, NotificationSender,
};
use std::cell::RefCell;
use std::rc::Rc;

struct Recorder {
    sent: Rc<RefCell<Vec<Vec<u8>>>>,
    fail_with: Option<std::io::ErrorKind>,
}

impl NotificationSender for Recorder {
    fn notify(&self, data: &[u8]) -> Result<(), std::io::Error> {
        self.sent.borrow_mut().push(data.to_vec());
        match self.fail_with {
            Some(kind) => Err(std::io::Error::from(kind)),
            None => Ok(()),
        }
    }
    fn close_backing(&self, id: u32) -> Result<u32, std::io::Error> {
        Ok(id)
    }
}

fn header(len: u32, code: i32) -> Vec<u8> {
    let mut h = Vec::new();
    h.extend_from_slice(&len.to_le_bytes());
    h.extend_from_slice(&code.to_le_bytes());
    h.extend_from_slice(&0u64.to_le_bytes());
    h
}

#[test]
fn poll_and_inval_inode_layout() {
    let mut expected = header(24, 1);
    expected.extend_from_slice(&5u64.to_le_bytes());
    assert_eq!(poll_message(5), expected);
    let mut expected = header(40, 2);
    expected.extend_from_slice(&9u64.to_le_bytes());
    expected.extend_from_slice(&(-1i64).to_le_bytes());
    expected.extend_from_slice(&4096i64.to_le_bytes());
    assert_eq!(inval_inode_message(9, -1, 4096), expected);
}

#[test]
fn named_notifications_end_with_nul() {
    let m = inval_entry_message(1, b"abc").unwrap();
    let mut expected = header(16 + 16 + 4, 3);
    expected.extend_from_slice(&1u64.to_le_bytes());
    expected.extend_from_slice(&3u32.to_le_bytes());
    expected.extend_from_slice(&0u32.to_le_bytes());
    expected.extend_from_slice(b"abc\0");
    assert_eq!(m, expected);
    let m = delete_message(1, 2, b"x").unwrap();
    assert_eq!(m.len(), 16 + 24 + 2);
    assert_eq!(&m[4..8], &6i32.to_le_bytes());
    assert_eq!(&m[40..42], b"x\0");
    let m = store_message(4, 8, &[1, 2, 3]).unwrap();
    assert_eq!(m.len(), 16 + 24 + 3);
    assert_eq!(&m[32..36], &3u32.to_le_bytes());
    assert_eq!(&m[40..], &[1, 2, 3]);
}

#[test]
fn handler_sends_and_ignores_missing_entries() {
    let sent = Rc::new(RefCell::new(Vec::new()));
    let h = NotificationHandler::new(Recorder { sent: sent.clone(), fail_with: None });
    assert!(h.poll(3).is_ok());
    assert!(h.inval_entry(1, b"n").is_ok());
    assert_eq!(sent.borrow().len(), 2);
    let quiet = NotificationHandler::new(Recorder { sent: sent.clone(), fail_with: Some(std::io::ErrorKind::NotFound) });
    assert!(quiet.inval_inode(1, 0, 0).is_ok());
    assert!(quiet.poll(1).is_err());
    let loud = NotificationHandler::new(Recorder { sent: sent.clone(), fail_with: Some(std::io::ErrorKind::Other) });
    assert!(loud.delete(1, 2, b"z").is_err());
}

#[test]
fn dispatch_by_kind() {
    let sent = Rc::new(RefCell::new(Vec::new()));
    let h = NotificationHandler::new(Recorder { sent: sent.clone(), fail_with: None });
    assert!(h.dispatch(NotificationKind::Store(1, 0, vec![9])).is_ok());
    assert_eq!(sent.borrow()[0].len(), 16 + 24 + 1);
    let h = NotificationHandler::new(Recorder { sent: sent.clone(), fail_with: None });
    assert!(h.dispatch(NotificationKind::CloseBacking(4)).is_ok());
    assert_eq!(sent.borrow().len(), 1);
    assert_eq!(NotificationKind::Poll(1).label(), "Poll");
    assert_eq!(NotificationKind::Disable.label(), "Disable");
    assert_eq!(NotificationKind::Delete(1, 2, vec![]).label(), "Delete");
}
