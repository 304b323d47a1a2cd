//! Stopping a running session from the outside.

use vstd::prelude::*;
use crossbeam_channel::{Receiver, Sender};

verus! {

/// `crossbeam_channel::Receiver`, carried through the library without being looked into.
#[verifier::external_type_specification]
#[verifier::external_body]
#[verifier::reject_recursive_types(T)]
pub struct ExReceiver<T>(Receiver<T>);

/// `crossbeam_channel::unbounded`: the two ends of a new channel without capacity limit.
#[verifier::external_body]
fn unbounded_stop_channel() -> (Sender<()>, Receiver<()>) {
    crossbeam_channel::unbounded()
}

/// `Sender::send` of a stop request; whether it was taken depends on the receiving end,
/// so nothing is stated of the outcome.
#[verifier::external_body]
fn send_stop(sender: &Sender<()>) -> bool {
    sender.send(()).is_ok()
}

/// The session's own queue of stop requests.
#[derive(Debug)]
pub struct InternalChannel {
    stop_out: Sender<()>,
    stop_in: Receiver<()>,
}

impl InternalChannel {
    /// A new queue with nothing in it.
    pub fn new() -> Self {
        let (stop_out, stop_in) = unbounded_stop_channel();
        InternalChannel { stop_out, stop_in }
    }
}

/// Something a session can be asked to stop through.
pub trait SessionQueuer: Send + Sync + 'static {
    /// Asking the session to stop through this queuer does what this says. A queuer
    /// may say what it does; by default anything.
    open spec fn stop_asked(&self) -> bool {
        true
    }

    /// Ask the session to stop.
    fn stop(&self)
        ensures
            self.stop_asked(),
    ;
}

impl SessionQueuer for InternalChannel {
    fn stop(&self) {
        let _ = send_stop(&self.stop_out);
    }
}

/// A handle that stops a session through its queuer.
#[derive(Debug)]
pub struct SessionHandler<Q: SessionQueuer> {
    queuer: Q,
}

impl<Q: SessionQueuer> SessionHandler<Q> {
    /// The queuer stop requests go through.
    pub closed spec fn queuer(&self) -> Q {
        self.queuer
    }

    /// A handle stopping the session through `queuer`.
    pub fn new(queuer: Q) -> (r: Self)
        ensures
            r.queuer() == queuer,
    {
        SessionHandler { queuer }
    }

    /// Ask the session to stop, through the queuer's `stop`.
    pub fn stop(&self)
        ensures
            self.queuer().stop_asked(),
    {
        self.queuer.stop();
    }
}

} // verus!
