//! Bookkeeping of poll requests: which poll handles wait on which inode, which inodes
//! are ready, and which readiness events are due to whom.

use vstd::prelude::*;
use crossbeam_channel::Sender;
use std::collections::{HashMap, HashSet};

verus! {

broadcast use vstd::std_specs::hash::group_hash_axioms;

/// `crossbeam_channel::Sender`, carried through the library without being looked into.
#[verifier::external_type_specification]
#[verifier::external_body]
#[verifier::reject_recursive_types(T)]
pub struct ExSender<T>(Sender<T>);

/// The constant `libc::POLLIN`: readiness for reading, which libc defines as 0x1 on
/// Linux; the value stated here holds for Linux targets only.
#[verifier::external_body]
fn pollin() -> (r: u32)
    ensures
        r == 1,
{
    libc::POLLIN as u32
}

/// `Sender::send` of one readiness event `(ph, events)`; whether the event was taken
/// depends on the receiving end, so nothing is stated of the outcome.
#[verifier::external_body]
fn send_event(sender: &Sender<(u64, u32)>, ph: u64, events: u32) -> bool {
    sender.send((ph, events)).is_ok()
}

/// `PollData` holds the state required for managing asynchronous poll notifications.
/// It is typically owned by a `Filesystem` implementation. The `Sender` end of its
/// MPMC channel (`ready_events_sender`) is provided by the `Session` to the
/// `Filesystem` (e.g., via a method like `init_poll_sender`).
pub struct PollData {
    /// Sender part of the MPMC channel for (poll_handle, events_bitmask).
    /// This is used by the filesystem logic to send readiness events.
    /// Typically set via `PollData::new` or `PollData::set_sender`.
    pub ready_events_sender: Option<Sender<(u64, u32)>>,
    /// Stores registered poll handles.
    /// Maps a kernel poll handle (`u64`) to a tuple of (inode, requested_events).
    pub registered_poll_handles: HashMap<u64, (u64, u32)>,
    /// Stores active poll handles for a given inode.
    /// Maps an inode (`u64`) to a set of kernel poll handles (`u64`).
    pub inode_poll_handles: HashMap<u64, HashSet<u64>>,
    /// Tracks inodes that are currently ready for I/O (e.g., POLLIN).
    pub ready_inodes: HashSet<u64>,
    /// The readiness events handed to `ready_events_sender` so far, in order (a record
    /// for the proofs; it takes no room at run time).
    sent: Ghost<Seq<(u64, u32)>>,
}

/// The bookkeeping of a `PollData`: the registered poll handles with their inode and
/// requested events, the poll handles listed under each inode, and the ready inodes.
pub struct PollView {
    /// Poll handle to (inode, requested events)
    pub registered: Map<u64, (u64, u32)>,
    /// Inode to the poll handles listed under it
    pub handles: Map<u64, Set<u64>>,
    /// Inodes ready for I/O
    pub ready: Set<u64>,
}

impl PollView {
    /// The poll handles listed under inode `ino` (none when it has no entry).
    pub open spec fn handles_of(self, ino: u64) -> Set<u64> {
        if self.handles.contains_key(ino) {
            self.handles[ino]
        } else {
            Set::empty()
        }
    }

    /// The bookkeeping after registering `ph` on `ino` for `events`.
    pub open spec fn after_register(self, ph: u64, ino: u64, events: u32) -> PollView {
        PollView {
            registered: self.registered.insert(ph, (ino, events)),
            handles: self.handles.insert(ino, self.handles_of(ino).insert(ph)),
            ready: self.ready,
        }
    }

    /// The bookkeeping after unregistering `ph`: it leaves the registry and the list
    /// of its inode, and an inode left without poll handles loses its entry.
    pub open spec fn after_unregister(self, ph: u64) -> PollView {
        if self.registered.contains_key(ph) {
            let ino = self.registered[ph].0;
            let left = self.handles_of(ino).remove(ph);
            PollView {
                registered: self.registered.remove(ph),
                handles: if !self.handles.contains_key(ino) {
                    self.handles
                } else if left.is_empty() {
                    self.handles.remove(ino)
                } else {
                    self.handles.insert(ino, left)
                },
                ready: self.ready,
            }
        } else {
            self
        }
    }
}

impl PollView {
    /// The bookkeeping after inode `ino` became ready.
    pub open spec fn after_ready(self, ino: u64) -> PollView {
        PollView { ready: self.ready.insert(ino), ..self }
    }

    /// The bookkeeping after inode `ino` stopped being ready.
    pub open spec fn after_not_ready(self, ino: u64) -> PollView {
        PollView { ready: self.ready.remove(ino), ..self }
    }
}

/// Marking an inode not ready undoes marking it ready, for an inode that was not ready.
pub proof fn law_not_ready_undoes_ready(v: PollView, ino: u64)
    requires
        !v.ready.contains(ino),
    ensures
        v.after_ready(ino).after_not_ready(ino) == v,
{
    assert(v.after_ready(ino).after_not_ready(ino).ready =~= v.ready);
}

/// Unregistering a poll handle undoes registering it: a handle that was neither
/// registered nor listed under the inode leaves the bookkeeping as it found it.
pub proof fn law_unregister_undoes_register(v: PollView, ph: u64, ino: u64, events: u32)
    requires
        !v.registered.contains_key(ph),
        !v.handles_of(ino).contains(ph),
        v.handles.contains_key(ino) ==> !v.handles[ino].is_empty(),
    ensures
        v.after_register(ph, ino, events).after_unregister(ph) == v,
{
    let w = v.after_register(ph, ino, events);
    let u = w.after_unregister(ph);
    assert(w.registered[ph].0 == ino);
    assert(u.registered =~= v.registered);
    assert(w.handles_of(ino).remove(ph) =~= v.handles_of(ino));
    if v.handles.contains_key(ino) {
        assert(u.handles =~= v.handles);
    } else {
        assert(v.handles_of(ino).is_empty());
        assert(u.handles =~= v.handles);
    }
}

impl View for PollData {
    type V = PollView;

    /// The bookkeeping, with each inode's handle set taken by its contents.
    closed spec fn view(&self) -> PollView {
        PollView {
            registered: self.registered_poll_handles@,
            handles: Map::new(
                |k: u64| self.inode_poll_handles@.contains_key(k),
                |k: u64| self.inode_poll_handles@[k]@,
            ),
            ready: self.ready_inodes@,
        }
    }
}

impl PollData {
    /// The poll handles listed under inode `ino` (none when it has no entry).
    pub closed spec fn handles_of(&self, ino: u64) -> Set<u64> {
        if self.inode_poll_handles@.contains_key(ino) {
            self.inode_poll_handles@[ino]@
        } else {
            Set::empty()
        }
    }

    /// Every registered poll handle is listed under the inode it polls, and no inode
    /// keeps an empty list.
    pub closed spec fn consistent(&self) -> bool {
        &&& forall|ph: u64| #[trigger]
            self.registered_poll_handles@.contains_key(ph) ==> self.handles_of(
                self.registered_poll_handles@[ph].0,
            ).contains(ph)
        &&& forall|ino: u64| #[trigger]
            self.inode_poll_handles@.contains_key(ino) ==> !self.inode_poll_handles@[ino]@.is_empty()
    }

    /// Whether poll handle `ph` is due a readiness event when inode `ino` becomes
    /// ready with `mask`: it is listed under `ino`, registered, and asked for some
    /// event in `mask`.
    pub closed spec fn notifies(&self, ino: u64, mask: u32, ph: u64) -> bool {
        &&& self.handles_of(ino).contains(ph)
        &&& self.registered_poll_handles@.contains_key(ph)
        &&& self.registered_poll_handles@[ph].1 & mask != 0
    }

    /// The readiness events handed to the sender so far, in the order they were sent.
    pub closed spec fn sent_events(&self) -> Seq<(u64, u32)> {
        self.sent@
    }

    /// `e` is a readiness event due when inode `ino` becomes ready with `mask`: a poll
    /// handle listed under the inode that asked for some of those events, with the
    /// events it asked for among them.
    pub closed spec fn ready_event(&self, ino: u64, mask: u32, e: (u64, u32)) -> bool {
        &&& self.notifies(ino, mask, e.0)
        &&& e.1 == self.registered_poll_handles@[e.0].1 & mask
    }

    /// Hand the readiness event `(ph, events)` to the sender, and record it.
    fn deliver(&mut self, ph: u64, events: u32)
        requires
            old(self).ready_events_sender is Some,
        ensures
            final(self).sent_events() == old(self).sent_events().push((ph, events)),
            final(self).ready_events_sender == old(self).ready_events_sender,
            final(self).registered_poll_handles == old(self).registered_poll_handles,
            final(self).inode_poll_handles == old(self).inode_poll_handles,
            final(self).ready_inodes == old(self).ready_inodes,
    {
        match &self.ready_events_sender {
            Some(sender) => {
                let _ = send_event(sender, ph, events);
            },
            None => {},
        }
        self.sent = Ghost(self.sent@.push((ph, events)));
    }

    /// The sender readiness events go through.
    pub closed spec fn sender(&self) -> Option<Sender<(u64, u32)>> {
        self.ready_events_sender
    }

    /// The registered poll handles, each with its inode and requested events.
    pub closed spec fn registered(&self) -> Map<u64, (u64, u32)> {
        self.registered_poll_handles@
    }

    /// The lists of poll handles kept under each inode.
    pub closed spec fn handle_lists(&self) -> Map<u64, HashSet<u64>> {
        self.inode_poll_handles@
    }

    /// The inodes that are ready.
    pub closed spec fn ready(&self) -> Set<u64> {
        self.ready_inodes@
    }

    /// Creates a new `PollData` instance, optionally with an initial sender.
    pub fn new(sender: Option<Sender<(u64, u32)>>) -> (r: Self)
        ensures
            r.sender() == sender,
            r.registered() == Map::<u64, (u64, u32)>::empty(),
            r.handle_lists() == Map::<u64, HashSet<u64>>::empty(),
            r.ready() == Set::<u64>::empty(),
            r.consistent(),
            r.sent_events() == Seq::<(u64, u32)>::empty(),
    {
        PollData {
            ready_events_sender: sender,
            registered_poll_handles: HashMap::new(),
            inode_poll_handles: HashMap::new(),
            ready_inodes: HashSet::new(),
            sent: Ghost(Seq::empty()),
        }
    }

    /// Sets or updates the sender for ready events.
    pub fn set_sender(&mut self, new_sender: Sender<(u64, u32)>)
        ensures
            final(self).sender() == Some(new_sender),
            final(self).registered() == old(self).registered(),
            final(self).handle_lists() == old(self).handle_lists(),
            final(self).ready() == old(self).ready(),
            final(self).sent_events() == old(self).sent_events(),
    {
        self.ready_events_sender = Some(new_sender);
    }

    /// The initial event mask sent when `ph` registers for `events_requested` on an
    /// inode: the requested readiness for reading, when the inode is already ready and
    /// a sender is set.
    pub closed spec fn initial_events(&self, ino: u64, events_requested: u32) -> Option<u32> {
        if self.ready().contains(ino) && self.ready_events_sender is Some && events_requested
            & 1u32 != 0 {
            Some(events_requested & 1u32)
        } else {
            None
        }
    }

    /// Registers a new poll request.
    ///
    /// Stores the kernel poll handle (`ph`) associated with an inode and the events
    /// it's interested in. If the inode is already ready for the requested events,
    /// an immediate notification is sent, and its event mask returned.
    pub fn register_poll_handle(&mut self, ph: u64, ino: u64, events_requested: u32) -> (r: Option<u32>)
        ensures
            final(self).registered() == old(self).registered().insert(
                ph,
                (ino, events_requested),
            ),
            final(self).handle_lists().dom() == old(self).handle_lists().dom().insert(ino),
            final(self).handles_of(ino) == old(self).handles_of(ino).insert(ph),
            forall|other: u64| other != ino ==> #[trigger] final(self).handles_of(other) == old(self).handles_of(other),
            final(self).ready() == old(self).ready(),
            final(self).sender() == old(self).sender(),
            r == old(self).initial_events(ino, events_requested),
            old(self).consistent() ==> final(self).consistent(),
            final(self)@ == old(self)@.after_register(ph, ino, events_requested),
            final(self).sent_events() == match old(self).initial_events(ino, events_requested) {
                Some(e) => old(self).sent_events().push((ph, e)),
                None => old(self).sent_events(),
            },
    {
        self.registered_poll_handles.insert(ph, (ino, events_requested));
        let mut handles = match self.inode_poll_handles.remove(&ino) {
            Some(set) => set,
            None => HashSet::new(),
        };
        handles.insert(ph);
        self.inode_poll_handles.insert(ino, handles);
        assert(self.handles_of(ino) == old(self).handles_of(ino).insert(ph));
        assert(self@.handles =~= old(self)@.handles.insert(ino, old(self)@.handles_of(ino).insert(ph)));
        if self.ready_inodes.contains(&ino) && self.ready_events_sender.is_some() {
            let actual_events = events_requested & pollin();
            if actual_events != 0 {
                self.deliver(ph, actual_events);
                return Some(actual_events);
            }
        }
        None
    }

    /// Unregisters a poll handle.
    ///
    /// This is typically called when the poll request is cancelled or the associated
    /// file descriptor is closed. An inode left without poll handles loses its entry.
    pub fn unregister_poll_handle(&mut self, ph: u64)
        ensures
            final(self).registered() == old(self).registered().remove(ph),
            final(self).sent_events() == old(self).sent_events(),
            old(self).registered().contains_key(ph) ==> {
                let ino = old(self).registered()[ph].0;
                &&& final(self).handles_of(ino) == old(self).handles_of(ino).remove(ph)
                &&& forall|other: u64| other != ino ==> #[trigger] final(self).handles_of(other) == old(self).handles_of(other)
                &&& old(self).handle_lists().contains_key(ino) ==> (final(self).handle_lists().contains_key(ino)
                    <==> !old(self).handles_of(ino).remove(ph).is_empty())
            },
            !old(self).registered().contains_key(ph) ==> final(self).handle_lists() == old(self).handle_lists(),
            final(self).ready() == old(self).ready(),
            final(self).sender() == old(self).sender(),
            old(self).consistent() ==> final(self).consistent(),
            final(self)@ == old(self)@.after_unregister(ph),
    {
        match self.registered_poll_handles.remove(&ph) {
            Some((ino, _)) => {
                let ghost left = old(self)@.handles_of(ino).remove(ph);
                match self.inode_poll_handles.remove(&ino) {
                    Some(mut handles) => {
                        handles.remove(&ph);
                        assert(handles@ == left);
                        if !handles.is_empty() {
                            self.inode_poll_handles.insert(ino, handles);
                            assert(self@.handles =~= old(self)@.handles.insert(ino, left));
                        } else {
                            assert(self@.handles =~= old(self)@.handles.remove(ino));
                        }
                    },
                    None => {
                        assert(self@.handles =~= old(self)@.handles);
                    },
                }
                assert(self@.registered =~= old(self)@.registered.remove(ph));
            },
            None => {
                assert(self@.handles =~= old(self)@.handles);
                assert(self@.registered =~= old(self)@.registered);
            },
        }
    }

    /// The readiness events due when inode `ino` becomes ready with `ready_events_mask`:
    /// one `(ph, requested & mask)` for each poll handle listed under the inode that is
    /// registered and asked for some of those events, in no particular order.
    pub fn ready_notifications(&self, ino: u64, ready_events_mask: u32) -> (r: Vec<(u64, u32)>)
        ensures
            r@.no_duplicates(),
            forall|e: (u64, u32)| #[trigger] r@.contains(e) <==> {
                &&& self.notifies(ino, ready_events_mask, e.0)
                &&& e.1 == self.registered()[e.0].1 & ready_events_mask
            },
    {
        let mut out: Vec<(u64, u32)> = Vec::new();
        match self.inode_poll_handles.get(&ino) {
            Some(handles) => {
                let ghost listed = handles@;
                assert(listed == self.handles_of(ino));
                for ph_ref in it: handles.iter()
                    invariant
                        listed == self.handles_of(ino),
                        listed == handles@,
                        it.seq().unref().to_set() == listed,
                        it.seq().no_duplicates(),
                        out@.no_duplicates(),
                        forall|e: (u64, u32)| #[trigger] out@.contains(e) <==> {
                            &&& exists|k: int| 0 <= k < it.index() && *it.seq()[k] == e.0
                            &&& self.notifies(ino, ready_events_mask, e.0)
                            &&& e.1 == self.registered()[e.0].1 & ready_events_mask
                        },
                {
                    let ph = *ph_ref;
                    let ghost k0 = it.index();
                    let ghost before = out@;
                    assert(*it.seq()[k0] == ph);
                    assert(listed.contains(ph)) by {
                        assert(it.seq().unref()[k0] == ph);
                    }
                    assert(forall|k: int| 0 <= k < k0 ==> *it.seq()[k] != ph) by {
                        assert forall|k: int| 0 <= k < k0 implies *it.seq()[k] != ph by {
                            if *it.seq()[k] == ph {
                                assert(it.seq()[k] == it.seq()[k0]);
                            }
                        }
                    }
                    match self.registered_poll_handles.get(&ph) {
                        Some(entry) => {
                            let actual_events = entry.1 & ready_events_mask;
                            if actual_events != 0 {
                                assert(!before.contains((ph, actual_events)));
                                out.push((ph, actual_events));
                                assert(out@ == before.push((ph, actual_events)));
                                assert forall|e: (u64, u32)| #[trigger] out@.contains(e) <==> (before.contains(e) || e == (ph, actual_events)) by {
                                    vstd::seq_lib::lemma_seq_contains_after_push(before, (ph, actual_events), e);
                                }
                            }
                        },
                        None => {},
                    }
                    assert forall|e: (u64, u32)| #[trigger] out@.contains(e) <==> {
                        &&& exists|k: int| 0 <= k < k0 + 1 && *it.seq()[k] == e.0
                        &&& self.notifies(ino, ready_events_mask, e.0)
                        &&& e.1 == self.registered()[e.0].1 & ready_events_mask
                    } by {
                        if e.0 == ph {
                            assert(0 <= k0 < k0 + 1 && *it.seq()[k0] == e.0);
                        }
                    }
                }
            },
            None => {},
        }
        out
    }

    /// Marks an inode as ready for I/O and notifies registered poll handles: each
    /// event of `ready_notifications` is sent when a sender is set.
    pub fn mark_inode_ready(&mut self, ino: u64, ready_events_mask: u32)
        ensures
            final(self).ready() == old(self).ready().insert(ino),
            final(self).registered() == old(self).registered(),
            final(self).handle_lists() == old(self).handle_lists(),
            final(self).sender() == old(self).sender(),
            final(self)@ == old(self)@.after_ready(ino),
            old(self).sender() is None ==> final(self).sent_events() == old(self).sent_events(),
            old(self).sender() is Some ==> exists|events: Seq<(u64, u32)>| {
                &&& events.no_duplicates()
                &&& forall|e: (u64, u32)| #[trigger] events.contains(e) <==> old(self).ready_event(ino, ready_events_mask, e)
                &&& final(self).sent_events() == old(self).sent_events() + events
            },
    {
        self.ready_inodes.insert(ino);
        if self.ready_events_sender.is_some() {
            let events = self.ready_notifications(ino, ready_events_mask);
            let ghost start = self.sent_events();
            let mut i: usize = 0;
            while i < events.len()
                invariant
                    i <= events@.len(),
                    self.ready_events_sender is Some,
                    self.ready_events_sender == old(self).sender(),
                    self.registered_poll_handles == old(self).registered_poll_handles,
                    self.inode_poll_handles == old(self).inode_poll_handles,
                    self.ready() == old(self).ready().insert(ino),
                    self.sent_events() == start + events@.subrange(0, i as int),
                decreases events@.len() - i,
            {
                let (ph, actual_events) = events[i];
                self.deliver(ph, actual_events);
                i = i + 1;
                assert(events@.subrange(0, i as int) == events@.subrange(0, i - 1) .push(events@[i - 1]));
            }
            assert(events@.subrange(0, events@.len() as int) == events@);
        }
    }

    /// Marks an inode as no longer ready for I/O.
    pub fn mark_inode_not_ready(&mut self, ino: u64)
        ensures
            final(self).ready() == old(self).ready().remove(ino),
            final(self).registered() == old(self).registered(),
            final(self).handle_lists() == old(self).handle_lists(),
            final(self).sender() == old(self).sender(),
            final(self)@ == old(self)@.after_not_ready(ino),
            final(self).sent_events() == old(self).sent_events(),
    {
        self.ready_inodes.remove(&ino);
    }
}


/// A poll handle registering on an inode that is already ready is sent, at once,
/// exactly the readiness for reading (`POLLIN`) among the events it asked for,
/// provided a sender is set; otherwise nothing is sent.
pub proof fn law_initial_event_is_requested_pollin(p: PollData, ino: u64, events_requested: u32)
    ensures
        p.initial_events(ino, events_requested) == if p.ready().contains(ino) && p.sender() is Some
            && events_requested & 1u32 != 0 {
            Some(events_requested & 1u32)
        } else {
            None::<u32>
        },
{
}

/// When inode `ino` becomes ready with events `mask`, an event is due to a poll handle
/// exactly when the handle is listed under `ino`, is registered, and asked for some of
/// those events; the event it is sent is the part of `mask` it asked for.
pub proof fn law_ready_event_is_requested_part(p: PollData, ino: u64, mask: u32, e: (u64, u32))
    ensures
        p.ready_event(ino, mask, e) <==> {
            &&& p.handles_of(ino).contains(e.0)
            &&& p.registered().contains_key(e.0)
            &&& p.registered()[e.0].1 & mask != 0
            &&& e.1 == p.registered()[e.0].1 & mask
        },
{
}

} // verus!
