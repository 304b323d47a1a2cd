//! The session loops, as state machines.
//!
//! A session loop alternates between outgoing notifications, incoming kernel requests
//! and heartbeats of the filesystem. The functions here decide, from the loop's state
//! and the outcome of the last step, what the loop does next; the caller performs
//! the step (receiving, sending, sleeping) and reports its outcome back.

use vstd::prelude::*;

verus! {

/// The status a filesystem reports from a heartbeat.
#[derive(Clone, Copy, Debug, PartialEq, Eq, Structural)]
pub enum FsStatus {
    /// The filesystem keeps the default behaviour (no heartbeat-driven events)
    Default,
    /// The filesystem is running and may produce events
    Ready,
    /// The filesystem asks the session to stop
    Stopped,
}

/// Which loop a session runs.
#[derive(Clone, Copy, Debug, PartialEq, Eq, Structural)]
pub enum LoopKind {
    /// Only kernel requests, blocking on each receive.
    RequestsOnly,
    /// Requests, notifications and heartbeats, without blocking.
    AllEvents,
}

/// The loop a session runs: the full event loop when the filesystem's first heartbeat
/// asks for it or notifications are enabled, else the plain request loop.
pub fn choose_loop(initial_status: FsStatus, notify: bool) -> (r: LoopKind)
    ensures
        r == (if initial_status != FsStatus::Default || notify {
            LoopKind::AllEvents
        } else {
            LoopKind::RequestsOnly
        }),
{
    let non_default = match initial_status {
        FsStatus::Default => false,
        _ => true,
    };
    if non_default || notify {
        LoopKind::AllEvents
    } else {
        LoopKind::RequestsOnly
    }
}

/// Why receiving a kernel request failed.
#[derive(Clone, Copy, Debug, PartialEq, Eq, Structural)]
pub enum ReceiveError {
    /// `ENOENT`: the operation was interrupted; safe to retry
    NoEntry,
    /// `EINTR`: interrupted system call
    Interrupted,
    /// `EAGAIN`: explicitly try again
    TryAgain,
    /// `ENODEV`: the filesystem was unmounted
    NoDevice,
    /// Any other error
    Other,
}

/// The constant `libc::ENOENT`, which libc defines as 2 on Linux; the value stated here
/// holds for Linux targets only.
#[verifier::external_body]
fn enoent() -> (r: i32)
    ensures
        r == 2,
{
    libc::ENOENT
}

/// The constant `libc::EINTR`, which libc defines as 4 on Linux; the value stated here
/// holds for Linux targets only.
#[verifier::external_body]
fn eintr() -> (r: i32)
    ensures
        r == 4,
{
    libc::EINTR
}

/// The constant `libc::EAGAIN`, which libc defines as 11 on Linux; the value stated here
/// holds for Linux targets only.
#[verifier::external_body]
fn eagain() -> (r: i32)
    ensures
        r == 11,
{
    libc::EAGAIN
}

/// The constant `libc::ENODEV`, which libc defines as 19 on Linux; the value stated here
/// holds for Linux targets only.
#[verifier::external_body]
fn enodev() -> (r: i32)
    ensures
        r == 19,
{
    libc::ENODEV
}

/// The receive error an operating system error number stands for.
pub open spec fn spec_receive_error(errno: i32) -> ReceiveError {
    if errno == 2 {
        ReceiveError::NoEntry
    } else if errno == 4 {
        ReceiveError::Interrupted
    } else if errno == 11 {
        ReceiveError::TryAgain
    } else if errno == 19 {
        ReceiveError::NoDevice
    } else {
        ReceiveError::Other
    }
}

/// Classify the error number of a failed receive.
pub fn receive_error(errno: i32) -> (r: ReceiveError)
    ensures
        r == spec_receive_error(errno),
{
    if errno == enoent() {
        ReceiveError::NoEntry
    } else if errno == eintr() {
        ReceiveError::Interrupted
    } else if errno == eagain() {
        ReceiveError::TryAgain
    } else if errno == enodev() {
        ReceiveError::NoDevice
    } else {
        ReceiveError::Other
    }
}

/// What the blocking request loop does next.
#[derive(Clone, Copy, Debug, PartialEq, Eq, Structural)]
pub enum RequestLoopStep {
    /// Receive the next request
    Continue,
    /// Leave the loop normally
    Finish,
    /// Leave the loop with the receive error
    Fail,
}

/// The blocking request loop's decision after a receive: `received` is `Ok(valid)`
/// when a request arrived (`valid` when it could be parsed and dispatched), or the
/// receive error.
pub fn request_loop_step(received: Result<bool, ReceiveError>) -> (r: RequestLoopStep)
    ensures
        r == (match received {
            Ok(valid) => if valid { RequestLoopStep::Continue } else { RequestLoopStep::Finish },
            Err(ReceiveError::NoDevice) => RequestLoopStep::Finish,
            Err(ReceiveError::Other) => RequestLoopStep::Fail,
            Err(_) => RequestLoopStep::Continue,
        }),
{
    match received {
        Ok(valid) => if valid {
            RequestLoopStep::Continue
        } else {
            RequestLoopStep::Finish
        },
        Err(ReceiveError::NoDevice) => RequestLoopStep::Finish,
        Err(ReceiveError::Other) => RequestLoopStep::Fail,
        Err(_) => RequestLoopStep::Continue,
    }
}

/// Which flavour of the full event loop runs: they differ in how an interrupted
/// receive is retried, and only the asynchronous one can lose its buffer.
#[derive(Clone, Copy, Debug, PartialEq, Eq, Structural)]
pub enum LoopFlavor {
    /// Single thread; an interrupted receive is retried at once.
    Blocking,
    /// Single task; an interrupted receive falls through to the heartbeat.
    Async,
}

/// Where the full event loop stands.
#[derive(Clone, Copy, Debug, PartialEq, Eq, Structural)]
pub enum Phase {
    /// About to look for an outgoing notification
    Notifications,
    /// About to look for an incoming request
    Requests,
    /// About to sleep and run a heartbeat
    Heartbeat,
    /// The loop ended normally
    Stopped,
    /// The loop ended with an error
    Failed,
}

/// The outcome of the step the loop last asked for.
#[derive(Clone, Copy, Debug, PartialEq, Eq, Structural)]
pub enum LoopEvent {
    /// A notification was taken from the queue and handled; `stop` when it asked to
    /// disable notifications, `send_failed` when delivering it to the kernel failed.
    NotificationHandled { stop: bool, send_failed: bool },
    /// The notification queue was empty
    NotificationsEmpty,
    /// The notification queue has no sender any more
    NotificationsDisconnected,
    /// A request arrived and was handled; `valid` when it could be parsed
    RequestHandled { valid: bool },
    /// No request was pending
    NoRequest,
    /// The receive was interrupted (`EINTR`)
    ReceiveInterrupted,
    /// The receive failed otherwise
    ReceiveFailed,
    /// The receive buffer was lost (asynchronous loop only)
    BufferLost,
    /// The loop slept and ran a heartbeat, which returned this status
    Heartbeat(FsStatus),
}

/// What the loop asks its driver to do next.
#[derive(Clone, Copy, Debug, PartialEq, Eq, Structural)]
pub enum LoopAction {
    /// Try to take one notification from the queue (without blocking)
    PollNotification,
    /// Try to receive one kernel request (without blocking)
    PollRequest,
    /// Sleep for the loop interval, then run a heartbeat
    SleepAndHeartbeat,
    /// Return `Ok(())`
    Finish,
    /// Return the error of the last step
    Fail,
}

/// State of the full event loop.
#[derive(Clone, Copy, Debug, PartialEq, Eq, Structural)]
pub struct EventLoop {
    /// Whether notifications are still processed
    pub notify: bool,
    /// Where the loop stands
    pub phase: Phase,
    /// Which flavour of loop this is
    pub flavor: LoopFlavor,
}

impl EventLoop {
    /// A loop about to start, with notifications enabled or not.
    pub fn new(notify: bool, flavor: LoopFlavor) -> (r: EventLoop)
        ensures
            r == (EventLoop { notify, phase: Phase::Notifications, flavor }),
    {
        EventLoop { notify, phase: Phase::Notifications, flavor }
    }

    /// The action the loop asks for in its current state.
    pub open spec fn spec_next_action(self) -> LoopAction {
        match self.phase {
            Phase::Notifications => if self.notify {
                LoopAction::PollNotification
            } else {
                LoopAction::PollRequest
            },
            Phase::Requests => LoopAction::PollRequest,
            Phase::Heartbeat => LoopAction::SleepAndHeartbeat,
            Phase::Stopped => LoopAction::Finish,
            Phase::Failed => LoopAction::Fail,
        }
    }

    /// The state after `event`, the outcome of the action the loop asked for.
    /// A finished loop ignores further events.
    pub open spec fn spec_on_event(self, event: LoopEvent) -> EventLoop {
        match self.phase {
            Phase::Stopped | Phase::Failed => self,
            _ => match event {
                LoopEvent::NotificationHandled { stop, send_failed } => if stop {
                    EventLoop { notify: false, phase: Phase::Notifications, ..self }
                } else if send_failed {
                    EventLoop { phase: Phase::Failed, ..self }
                } else {
                    EventLoop { phase: Phase::Notifications, ..self }
                },
                LoopEvent::NotificationsEmpty => EventLoop { phase: Phase::Requests, ..self },
                LoopEvent::NotificationsDisconnected => EventLoop {
                    notify: false,
                    phase: Phase::Requests,
                    ..self
                },
                LoopEvent::RequestHandled { valid } => if valid {
                    EventLoop { phase: Phase::Notifications, ..self }
                } else {
                    EventLoop { phase: Phase::Stopped, ..self }
                },
                LoopEvent::NoRequest => EventLoop { phase: Phase::Heartbeat, ..self },
                LoopEvent::ReceiveInterrupted => match self.flavor {
                    LoopFlavor::Blocking => EventLoop { phase: Phase::Notifications, ..self },
                    LoopFlavor::Async => EventLoop { phase: Phase::Heartbeat, ..self },
                },
                LoopEvent::ReceiveFailed => EventLoop { phase: Phase::Failed, ..self },
                LoopEvent::BufferLost => EventLoop { phase: Phase::Stopped, ..self },
                LoopEvent::Heartbeat(status) => if status == FsStatus::Stopped {
                    EventLoop { phase: Phase::Stopped, ..self }
                } else {
                    EventLoop { phase: Phase::Notifications, ..self }
                },
            },
        }
    }

    /// The action the loop asks for now.
    pub fn next_action(&self) -> (r: LoopAction)
        ensures
            r == self.spec_next_action(),
    {
        match self.phase {
            Phase::Notifications => if self.notify {
                LoopAction::PollNotification
            } else {
                LoopAction::PollRequest
            },
            Phase::Requests => LoopAction::PollRequest,
            Phase::Heartbeat => LoopAction::SleepAndHeartbeat,
            Phase::Stopped => LoopAction::Finish,
            Phase::Failed => LoopAction::Fail,
        }
    }

    /// Move the loop on after `event`.
    pub fn on_event(&mut self, event: LoopEvent)
        ensures
            *final(self) == old(self).spec_on_event(event),
    {
        match self.phase {
            Phase::Stopped | Phase::Failed => {},
            _ => match event {
                LoopEvent::NotificationHandled { stop, send_failed } => {
                    if stop {
                        self.notify = false;
                        self.phase = Phase::Notifications;
                    } else if send_failed {
                        self.phase = Phase::Failed;
                    } else {
                        self.phase = Phase::Notifications;
                    }
                },
                LoopEvent::NotificationsEmpty => {
                    self.phase = Phase::Requests;
                },
                LoopEvent::NotificationsDisconnected => {
                    self.notify = false;
                    self.phase = Phase::Requests;
                },
                LoopEvent::RequestHandled { valid } => {
                    if valid {
                        self.phase = Phase::Notifications;
                    } else {
                        self.phase = Phase::Stopped;
                    }
                },
                LoopEvent::NoRequest => {
                    self.phase = Phase::Heartbeat;
                },
                LoopEvent::ReceiveInterrupted => {
                    match self.flavor {
                        LoopFlavor::Blocking => {
                            self.phase = Phase::Notifications;
                        },
                        LoopFlavor::Async => {
                            self.phase = Phase::Heartbeat;
                        },
                    }
                },
                LoopEvent::ReceiveFailed => {
                    self.phase = Phase::Failed;
                },
                LoopEvent::BufferLost => {
                    self.phase = Phase::Stopped;
                },
                LoopEvent::Heartbeat(status) => {
                    let stopped = match status {
                        FsStatus::Stopped => true,
                        _ => false,
                    };
                    if stopped {
                        self.phase = Phase::Stopped;
                    } else {
                        self.phase = Phase::Notifications;
                    }
                },
            },
        }
    }
}

/// What the dedicated notification loop does next.
#[derive(Clone, Copy, Debug, PartialEq, Eq, Structural)]
pub enum NotificationLoopStep {
    /// Leave the loop: the session was destroyed
    Finish,
    /// Block until a notification arrives
    Receive,
    /// Notifications are disabled: sleep for the loop interval
    Sleep,
}

/// The dedicated notification loop's decision at the top of each iteration.
pub fn notification_loop_step(destroyed: bool, notify: bool) -> (r: NotificationLoopStep)
    ensures
        r == (if destroyed {
            NotificationLoopStep::Finish
        } else if notify {
            NotificationLoopStep::Receive
        } else {
            NotificationLoopStep::Sleep
        }),
{
    if destroyed {
        NotificationLoopStep::Finish
    } else if notify {
        NotificationLoopStep::Receive
    } else {
        NotificationLoopStep::Sleep
    }
}

/// The heartbeat loop stops exactly when the filesystem reports `Stopped`.
pub fn heartbeat_loop_continues(status: FsStatus) -> (r: bool)
    ensures
        r == (status != FsStatus::Stopped),
{
    match status {
        FsStatus::Stopped => false,
        _ => true,
    }
}

/// A finished loop stays finished: no event moves it out of `Stopped` or `Failed`,
/// and it keeps asking its driver to return.
pub proof fn law_finished_loop_stays_finished(l: EventLoop, event: LoopEvent)
    requires
        l.phase == Phase::Stopped || l.phase == Phase::Failed,
    ensures
        l.spec_on_event(event) == l,
        l.spec_next_action() == LoopAction::Finish || l.spec_next_action() == LoopAction::Fail,
{
}

/// Notifications, once disabled, stay disabled for the rest of the loop, and the
/// loop never again asks for a notification.
pub proof fn law_notifications_stay_disabled(l: EventLoop, event: LoopEvent)
    requires
        !l.notify,
    ensures
        !l.spec_on_event(event).notify,
        l.spec_on_event(event).spec_next_action() != LoopAction::PollNotification,
{
}

/// A loop with nothing to do sleeps and beats: after an empty notification queue and
/// no pending request, the next action is a heartbeat.
pub proof fn law_idle_loop_sleeps(l: EventLoop)
    requires
        l.phase == Phase::Notifications,
        l.notify,
    ensures
        l.spec_on_event(LoopEvent::NotificationsEmpty).spec_on_event(LoopEvent::NoRequest)
            .spec_next_action() == LoopAction::SleepAndHeartbeat,
{
}

/// The loop ends after a heartbeat exactly when the filesystem reports `Stopped`.
pub proof fn law_heartbeat_stops_loop(l: EventLoop, status: FsStatus)
    requires
        l.phase == Phase::Heartbeat,
    ensures
        (l.spec_on_event(LoopEvent::Heartbeat(status)).phase == Phase::Stopped)
            <==> status == FsStatus::Stopped,
{
}

} // verus!
