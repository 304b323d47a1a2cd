use fuser::passthrough::{BackingCloser, BackingCloserFactory, BackingHandler, BackingSender};
use fuser::queue::{InternalChannel, SessionHandler};
use std::sync::{Arc, Mutex};

#[derive(Clone, Default)]
struct Log(Arc<Mutex<Vec<String>>>);

impl Log {
    fn push(&self, s: String) {
        self.0.lock().unwrap().push(s);
    }
    fn items(&self) -> Vec<String> {
        self.0.lock().unwrap().clone()
    }
}

struct MockSender(Log);

impl BackingSender for MockSender {
    fn open_backing(&self, fd: u32) -> Result<u32, std::io::Error> {
        self.0.push(format!("open {fd}"));
        if fd == 0 {
            Err(std::io::Error::from(std::io::ErrorKind::InvalidInput))
        } else {
            Ok(fd + 100)
        }
    }
    fn close_backing(&self, id: u32) -> Result<u32, std::io::Error> {
        self.0.push(format!("close {id}"));
        Ok(0)
    }
}

struct MockCloser(Log);

impl BackingCloser for MockCloser {
    fn close_backing(&self, id: u32) {
        self.0.push(format!("closer {id}"));
    }
}

struct Factory(Log);

impl BackingCloserFactory for Factory {
    type Closer = MockCloser;
    fn new_closer(&self) -> MockCloser {
        MockCloser(self.0.clone())
    }
}

#[test]
fn backing_ids_open_and_close_once() {
    let log = Log::default();
    let handler = BackingHandler::new(MockSender(log.clone()), Factory(log.clone()));
    let id = handler.open_backing(3).unwrap();
    assert_eq!(id.id, 103);
    assert!(handler.open_backing(0).is_err());
    // Closing through the handler hands the id to the sender, not to the closer.
    assert_eq!(handler.close_backing(id).unwrap(), 0);
    let released = handler.open_backing(4).unwrap();
    released.release();
    assert_eq!(log.items(), vec!["open 3", "open 0", "close 103", "open 4", "closer 104"]);
}

#[test]
fn session_handler_stops_through_queue() {
    let handler = SessionHandler::new(InternalChannel::new());
    handler.stop();
    handler.stop();
}
