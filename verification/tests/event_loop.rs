use fuser::event_loop::{
    choose_loop, heartbeat_loop_continues, notification_loop_step, request_loop_step, EventLoop, FsStatus, LoopAction,
    LoopEvent, LoopFlavor, LoopKind, NotificationLoopStep, ReceiveError, RequestLoopStep,
};

#[test]
fn loop_choice() {
    assert_eq!(choose_loop(FsStatus::Default, false), LoopKind::RequestsOnly);
    assert_eq!(choose_loop(FsStatus::Ready, false), LoopKind::AllEvents);
    assert_eq!(choose_loop(FsStatus::Default, true), LoopKind::AllEvents);
}

#[test]
fn request_loop_decisions() {
    assert_eq!(request_loop_step(Ok(true)), RequestLoopStep::Continue);
    assert_eq!(request_loop_step(Ok(false)), RequestLoopStep::Finish);
    assert_eq!(request_loop_step(Err(ReceiveError::NoDevice)), RequestLoopStep::Finish);
    assert_eq!(request_loop_step(Err(ReceiveError::Interrupted)), RequestLoopStep::Continue);
    assert_eq!(request_loop_step(Err(ReceiveError::Other)), RequestLoopStep::Fail);
}

#[test]
fn event_loop_cycle() {
    let mut l = EventLoop::new(true, LoopFlavor::Blocking);
    assert_eq!(l.next_action(), LoopAction::PollNotification);
    l.on_event(LoopEvent::NotificationsEmpty);
    assert_eq!(l.next_action(), LoopAction::PollRequest);
    l.on_event(LoopEvent::NoRequest);
    assert_eq!(l.next_action(), LoopAction::SleepAndHeartbeat);
    l.on_event(LoopEvent::Heartbeat(FsStatus::Ready));
    assert_eq!(l.next_action(), LoopAction::PollNotification);
    l.on_event(LoopEvent::NotificationHandled { stop: true, send_failed: false });
    assert!(!l.notify);
    assert_eq!(l.next_action(), LoopAction::PollRequest);
    l.on_event(LoopEvent::Heartbeat(FsStatus::Stopped));
    assert_eq!(l.next_action(), LoopAction::Finish);
    l.on_event(LoopEvent::RequestHandled { valid: true });
    assert_eq!(l.next_action(), LoopAction::Finish);
}

#[test]
fn event_loop_failures() {
    let mut l = EventLoop::new(false, LoopFlavor::Async);
    l.on_event(LoopEvent::ReceiveInterrupted);
    assert_eq!(l.next_action(), LoopAction::SleepAndHeartbeat);
    l.on_event(LoopEvent::ReceiveFailed);
    assert_eq!(l.next_action(), LoopAction::Fail);
    let mut b = EventLoop::new(false, LoopFlavor::Blocking);
    b.on_event(LoopEvent::ReceiveInterrupted);
    assert_eq!(b.next_action(), LoopAction::PollRequest);
    b.on_event(LoopEvent::BufferLost);
    assert_eq!(b.next_action(), LoopAction::Finish);
}

#[test]
fn side_loops() {
    assert_eq!(notification_loop_step(true, true), NotificationLoopStep::Finish);
    assert_eq!(notification_loop_step(false, true), NotificationLoopStep::Receive);
    assert_eq!(notification_loop_step(false, false), NotificationLoopStep::Sleep);
    assert!(heartbeat_loop_continues(FsStatus::Ready));
    assert!(!heartbeat_loop_continues(FsStatus::Stopped));
}
