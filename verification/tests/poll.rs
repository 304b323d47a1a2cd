use crossbeam_channel::unbounded;
use fuser::poll::PollData;
use std::sync::{Arc, Mutex};

#[test]
fn test_poll_data_new() {
    let (_tx, rx) = unbounded();
    let poll_data = PollData::new(Some(_tx));
    assert!(poll_data.ready_events_sender.is_some());
    assert!(poll_data.registered_poll_handles.is_empty());
    assert!(poll_data.inode_poll_handles.is_empty());
    assert!(poll_data.ready_inodes.is_empty());
    drop(rx); // ensure channel is dropped
}

#[test]
fn test_register_and_unregister_poll_handle() {
    let poll_data_arc = Arc::new(Mutex::new(PollData::new(None)));
    let ph1: u64 = 1001;
    let ino1: u64 = 1;
    let events1: u32 = libc::POLLIN as u32;

    {
        let mut poll_data = poll_data_arc.lock().unwrap();
        poll_data.register_poll_handle(ph1, ino1, events1);

        assert_eq!(poll_data.registered_poll_handles.get(&ph1), Some(&(ino1, events1)));
        assert!(poll_data.inode_poll_handles.get(&ino1).unwrap().contains(&ph1));
    }

    {
        let mut poll_data = poll_data_arc.lock().unwrap();
        poll_data.unregister_poll_handle(ph1);
        assert!(!poll_data.registered_poll_handles.contains_key(&ph1));
        assert!(!poll_data.inode_poll_handles.contains_key(&ino1));
    }
}

#[test]
fn test_mark_inode_ready_sends_event() {
    let (tx, rx) = unbounded();
    let poll_data_arc = Arc::new(Mutex::new(PollData::new(Some(tx))));

    let ph1: u64 = 1002;
    let ino1: u64 = 2;
    let events1: u32 = libc::POLLIN as u32;

    {
        let mut poll_data = poll_data_arc.lock().unwrap();
        poll_data.register_poll_handle(ph1, ino1, events1);
    }

    {
        let mut poll_data = poll_data_arc.lock().unwrap();
        poll_data.mark_inode_ready(ino1, libc::POLLIN as u32);
    }

    match rx.try_recv() {
        Ok((ph_recv, events_recv)) => {
            assert_eq!(ph_recv, ph1);
            assert_eq!(events_recv, libc::POLLIN as u32);
        }
        Err(e) => panic!("Expected to receive a poll event, but got error: {}", e),
    }
}

#[test]
fn test_mark_inode_ready_sends_event_only_for_requested_events() {
    let (tx, rx) = unbounded();
    let poll_data_arc = Arc::new(Mutex::new(PollData::new(Some(tx))));

    let ph1: u64 = 1003;
    let ino1: u64 = 3;
    let requested_events_in: u32 = libc::POLLIN as u32;
    let _requested_events_out: u32 = libc::POLLOUT as u32;

    {
        let mut poll_data = poll_data_arc.lock().unwrap();
        // ph1 is interested in POLLIN
        poll_data.register_poll_handle(ph1, ino1, requested_events_in);
    }

    {
        let mut poll_data = poll_data_arc.lock().unwrap();
        // Mark inode ready for POLLOUT. ph1 should not be notified.
        poll_data.mark_inode_ready(ino1, libc::POLLOUT as u32);
    }
    assert!(rx.try_recv().is_err(), "Should not receive event if not requested");

    {
        let mut poll_data = poll_data_arc.lock().unwrap();
        // Mark inode ready for POLLIN. ph1 should be notified.
        poll_data.mark_inode_ready(ino1, libc::POLLIN as u32);
    }
    match rx.try_recv() {
        Ok((ph_recv, events_recv)) => {
            assert_eq!(ph_recv, ph1);
            assert_eq!(events_recv, libc::POLLIN as u32);
        }
        Err(e) => panic!("Expected to receive a POLLIN event, but got error: {}", e),
    }
}

#[test]
fn test_initial_notification_if_already_ready() {
    let (tx, rx) = unbounded();
    let poll_data_arc = Arc::new(Mutex::new(PollData::new(Some(tx))));

    let ph1: u64 = 1004;
    let ino1: u64 = 4;
    let events1: u32 = libc::POLLIN as u32;

    {
        let mut poll_data = poll_data_arc.lock().unwrap();
        // Mark ino1 as ready *before* registering the poll handle
        poll_data.mark_inode_ready(ino1, libc::POLLIN as u32);
    }

    // Clear any messages from the mark_inode_ready call
    while rx.try_recv().is_ok() {}

    let initial_event_mask: Option<u32>;
    {
        let mut poll_data = poll_data_arc.lock().unwrap();
        // Now register the poll handle
        initial_event_mask = poll_data.register_poll_handle(ph1, ino1, events1);
    }

    assert_eq!(initial_event_mask, Some(libc::POLLIN as u32), "Initial event mask should be POLLIN");

    match rx.try_recv() {
        Ok((ph_recv, events_recv)) => {
            assert_eq!(ph_recv, ph1);
            assert_eq!(events_recv, libc::POLLIN as u32);
        }
        Err(e) => panic!("Expected to receive an initial poll event, but got error: {}", e),
    }
}

#[test]
fn test_mark_inode_not_ready() {
    let poll_data_arc = Arc::new(Mutex::new(PollData::new(None)));
    let ino1: u64 = 5;

    {
        let mut poll_data = poll_data_arc.lock().unwrap();
        poll_data.mark_inode_ready(ino1, libc::POLLIN as u32);
        assert!(poll_data.ready_inodes.contains(&ino1));
    }

    {
        let mut poll_data = poll_data_arc.lock().unwrap();
        poll_data.mark_inode_not_ready(ino1);
        assert!(!poll_data.ready_inodes.contains(&ino1));
    }
}

#[test]
fn test_set_sender() {
    let poll_data_arc = Arc::new(Mutex::new(PollData::new(None)));
    assert!(poll_data_arc.lock().unwrap().ready_events_sender.is_none());

    let (tx, _rx) = unbounded();
    poll_data_arc.lock().unwrap().set_sender(tx);
    assert!(poll_data_arc.lock().unwrap().ready_events_sender.is_some());
}

#[test]
fn poll_register_then_unregister_keeps_other_handles() {
    let mut poll_data = PollData::new(None);
    assert_eq!(poll_data.register_poll_handle(1, 9, 1), None);
    assert_eq!(poll_data.register_poll_handle(2, 9, 1), None);
    poll_data.unregister_poll_handle(1);
    let left = poll_data.inode_poll_handles.get(&9).unwrap();
    assert!(left.contains(&2));
    assert!(!left.contains(&1));
    // Unregistering an unknown handle changes nothing.
    poll_data.unregister_poll_handle(77);
    assert_eq!(poll_data.registered_poll_handles.len(), 1);
}

#[test]
fn poll_ready_notifications_lists_each_interested_handle() {
    let mut poll_data = PollData::new(None);
    poll_data.register_poll_handle(10, 3, 0x1);
    poll_data.register_poll_handle(11, 3, 0x4);
    poll_data.register_poll_handle(12, 3, 0x5);
    poll_data.register_poll_handle(13, 4, 0x1);
    let mut events = poll_data.ready_notifications(3, 0x1);
    events.sort();
    assert_eq!(events, vec![(10, 0x1), (12, 0x1)]);
    let mut events = poll_data.ready_notifications(3, 0x4);
    events.sort();
    assert_eq!(events, vec![(11, 0x4), (12, 0x4)]);
    assert!(poll_data.ready_notifications(5, 0x1).is_empty());
}

#[test]
fn poll_no_initial_event_without_sender_or_readiness() {
    let mut poll_data = PollData::new(None);
    poll_data.mark_inode_ready(6, 0x1);
    // Ready, but no sender: nothing is sent, so no initial mask.
    assert_eq!(poll_data.register_poll_handle(20, 6, 0x1), None);
    let (tx, _rx) = unbounded();
    poll_data.set_sender(tx);
    // A request for writing only gets no initial event.
    assert_eq!(poll_data.register_poll_handle(21, 6, 0x4), None);
    assert_eq!(poll_data.register_poll_handle(22, 6, 0x5), Some(0x1));
}
