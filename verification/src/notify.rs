//! Notifications the filesystem sends to the kernel unasked: poll wakeups and cache
//! invalidations.
//!
//! A notification is laid out like a reply: an out header whose error field carries
//! the notification code and whose unique id is zero, then the notification's own
//! structure, followed for some kinds by a name (with its terminating zero byte) or
//! by data.

use vstd::prelude::*;

use crate::abi::{le_i64, le_u32, le_u64, push_bytes, push_i64, push_u32, push_u64, FuseOutHeader};
use crate::reply::{law_message_announces_length_and_request, message, spec_is_message, spec_message};
use crate::request::{
    law_read_u32_at, law_read_u32_in_tail, law_read_u64_at, law_read_u64_in_tail, spec_read_u32, spec_read_u64,
};

verus! {

/// Notification code of a poll wakeup
pub const FUSE_NOTIFY_POLL: i32 = 1;
/// Notification code of an inode invalidation
pub const FUSE_NOTIFY_INVAL_INODE: i32 = 2;
/// Notification code of a directory entry invalidation
pub const FUSE_NOTIFY_INVAL_ENTRY: i32 = 3;
/// Notification code of an inode data update
pub const FUSE_NOTIFY_STORE: i32 = 4;
/// Notification code of a directory entry deletion
pub const FUSE_NOTIFY_DELETE: i32 = 6;

/// The list of supported notification types
#[derive(Debug)]
pub enum NotificationKind {
    /// A poll event notification (field: ph)
    Poll(u64),
    /// An invalid entry notification (fields: parent, name)
    InvalEntry(u64, Vec<u8>),
    /// An invalid inode notification (fields: ino, offset, len)
    InvalInode(u64, i64, i64),
    /// An inode metadata update notification (fields: ino, offset, data)
    Store(u64, u64, Vec<u8>),
    /// An inode deletion notification (fields: parent, ino, name)
    Delete(u64, u64, Vec<u8>),
    /// A request to close a backing ID (field: id)
    CloseBacking(u32),
    /// (Internal) Pause processing of notifications
    Disable,
}

impl NotificationKind {
    /// A string the describes a Notification, mainly for logging purposes.
    pub fn label(&self) -> (r: &'static str)
        ensures
            r@ == (match self {
                NotificationKind::Poll(_) => "Poll"@,
                NotificationKind::InvalEntry(..) => "InvalEntry"@,
                NotificationKind::InvalInode(..) => "InvalInode"@,
                NotificationKind::Store(..) => "Store"@,
                NotificationKind::Delete(..) => "Delete"@,
                NotificationKind::CloseBacking(_) => "CloseBacking"@,
                NotificationKind::Disable => "Disable"@,
            }),
    {
        match self {
            NotificationKind::Poll(_) => "Poll",
            NotificationKind::InvalEntry(..) => "InvalEntry",
            NotificationKind::InvalInode(..) => "InvalInode",
            NotificationKind::Store(..) => "Store",
            NotificationKind::Delete(..) => "Delete",
            NotificationKind::CloseBacking(_) => "CloseBacking",
            NotificationKind::Disable => "Disable",
        }
    }
}

/* ------ Encoding ------ */

/// `name` followed by its terminating zero byte.
pub open spec fn spec_name_z(name: Seq<u8>) -> Seq<u8> {
    name.push(0u8)
}

/// The payload of a poll wakeup (`fuse_notify_poll_wakeup_out`).
pub open spec fn spec_poll_payload(ph: u64) -> Seq<u8> {
    le_u64(ph)
}

/// The payload of an inode invalidation (`fuse_notify_inval_inode_out`).
pub open spec fn spec_inval_inode_payload(ino: u64, offset: i64, len: i64) -> Seq<u8> {
    le_u64(ino) + le_i64(offset) + le_i64(len)
}

/// The payload of an entry invalidation (`fuse_notify_inval_entry_out`, then the
/// name); `None` when the name's length does not fit its 32-bit field.
pub open spec fn spec_inval_entry_payload(parent: u64, name: Seq<u8>) -> Option<Seq<u8>> {
    if name.len() > u32::MAX {
        None
    } else {
        Some(le_u64(parent) + le_u32(name.len() as u32) + le_u32(0) + spec_name_z(name))
    }
}

/// The payload of a data update (`fuse_notify_store_out`, then the data); `None` when
/// the data's length does not fit its 32-bit field.
pub open spec fn spec_store_payload(ino: u64, offset: u64, data: Seq<u8>) -> Option<Seq<u8>> {
    if data.len() > u32::MAX {
        None
    } else {
        Some(le_u64(ino) + le_u64(offset) + le_u32(data.len() as u32) + le_u32(0) + data)
    }
}

/// The payload of an entry deletion (`fuse_notify_delete_out`, then the name); `None`
/// when the name's length does not fit its 32-bit field.
pub open spec fn spec_delete_payload(parent: u64, child: u64, name: Seq<u8>) -> Option<Seq<u8>> {
    if name.len() > u32::MAX {
        None
    } else {
        Some(le_u64(parent) + le_u64(child) + le_u32(name.len() as u32) + le_u32(0) + spec_name_z(
            name,
        ))
    }
}

/// The complete notification with `code` and `payload`: `None` when the payload is
/// missing (too large) or the whole does not fit the header's length field.
pub open spec fn spec_notification(code: i32, payload: Option<Seq<u8>>) -> Option<Seq<u8>> {
    match payload {
        Some(p) => spec_message(0, code, p),
        None => None,
    }
}

/// Lay out the notification with `code` and `payload`.
fn notification(code: i32, payload: &[u8]) -> (r: Option<Vec<u8>>)
    ensures
        r matches Some(m) ==> spec_notification(code, Some(payload@)) == Some(m@),
        r is None <==> spec_notification(code, Some(payload@)) is None,
{
    message(0, code, payload)
}

/// The poll wakeup notification for poll handle `ph`.
pub fn poll_message(ph: u64) -> (r: Vec<u8>)
    ensures
        spec_notification(FUSE_NOTIFY_POLL, Some(spec_poll_payload(ph))) == Some(r@),
{
    let mut payload: Vec<u8> = Vec::new();
    push_u64(&mut payload, ph);
    assert(payload@ =~= spec_poll_payload(ph));
    match notification(FUSE_NOTIFY_POLL, payload.as_slice()) {
        Some(m) => m,
        None => {
            assert(false);
            Vec::new()
        },
    }
}

/// The notification invalidating the cached data of inode `ino` in the range of `len`
/// bytes at `offset`.
pub fn inval_inode_message(ino: u64, offset: i64, len: i64) -> (r: Vec<u8>)
    ensures
        spec_notification(FUSE_NOTIFY_INVAL_INODE, Some(spec_inval_inode_payload(ino, offset, len)))
            == Some(r@),
{
    let mut payload: Vec<u8> = Vec::new();
    push_u64(&mut payload, ino);
    push_i64(&mut payload, offset);
    push_i64(&mut payload, len);
    assert(payload@ =~= spec_inval_inode_payload(ino, offset, len));
    match notification(FUSE_NOTIFY_INVAL_INODE, payload.as_slice()) {
        Some(m) => m,
        None => {
            assert(false);
            Vec::new()
        },
    }
}

/// The notification invalidating the cached entry `name` in directory `parent`;
/// `None` when the name is too long for the message.
pub fn inval_entry_message(parent: u64, name: &[u8]) -> (r: Option<Vec<u8>>)
    ensures
        r matches Some(m) ==> spec_notification(
            FUSE_NOTIFY_INVAL_ENTRY,
            spec_inval_entry_payload(parent, name@),
        ) == Some(m@),
        r is None <==> spec_notification(FUSE_NOTIFY_INVAL_ENTRY, spec_inval_entry_payload(parent, name@))
            is None,
{
    if name.len() > u32::MAX as usize {
        return None;
    }
    let mut payload: Vec<u8> = Vec::new();
    push_u64(&mut payload, parent);
    push_u32(&mut payload, name.len() as u32);
    push_u32(&mut payload, 0);
    push_bytes(&mut payload, name);
    payload.push(0u8);
    assert(payload@ =~= spec_inval_entry_payload(parent, name@)->0);
    notification(FUSE_NOTIFY_INVAL_ENTRY, payload.as_slice())
}

/// The notification updating the kernel's copy of inode `ino`'s data at `offset`;
/// `None` when the data is too long for the message.
pub fn store_message(ino: u64, offset: u64, data: &[u8]) -> (r: Option<Vec<u8>>)
    ensures
        r matches Some(m) ==> spec_notification(FUSE_NOTIFY_STORE, spec_store_payload(ino, offset, data@))
            == Some(m@),
        r is None <==> spec_notification(FUSE_NOTIFY_STORE, spec_store_payload(ino, offset, data@))
            is None,
{
    if data.len() > u32::MAX as usize {
        return None;
    }
    let mut payload: Vec<u8> = Vec::new();
    push_u64(&mut payload, ino);
    push_u64(&mut payload, offset);
    push_u32(&mut payload, data.len() as u32);
    push_u32(&mut payload, 0);
    push_bytes(&mut payload, data);
    assert(payload@ =~= spec_store_payload(ino, offset, data@)->0);
    notification(FUSE_NOTIFY_STORE, payload.as_slice())
}

/// The notification that entry `name` for inode `child` left directory `parent`;
/// `None` when the name is too long for the message.
pub fn delete_message(parent: u64, child: u64, name: &[u8]) -> (r: Option<Vec<u8>>)
    ensures
        r matches Some(m) ==> spec_notification(
            FUSE_NOTIFY_DELETE,
            spec_delete_payload(parent, child, name@),
        ) == Some(m@),
        r is None <==> spec_notification(FUSE_NOTIFY_DELETE, spec_delete_payload(parent, child, name@))
            is None,
{
    if name.len() > u32::MAX as usize {
        return None;
    }
    let mut payload: Vec<u8> = Vec::new();
    push_u64(&mut payload, parent);
    push_u64(&mut payload, child);
    push_u32(&mut payload, name.len() as u32);
    push_u32(&mut payload, 0);
    push_bytes(&mut payload, name);
    payload.push(0u8);
    assert(payload@ =~= spec_delete_payload(parent, child, name@)->0);
    notification(FUSE_NOTIFY_DELETE, payload.as_slice())
}

/* ------ Kernel Communication ------ */

/// Callback for sending notifications to the fuse device
pub trait NotificationSender {
    /// `r` is an outcome of handing the message `data` to the kernel through this
    /// sender. A sender may say what its outcomes are; by default any outcome is one.
    open spec fn notified(&self, data: Seq<u8>, r: Result<(), std::io::Error>) -> bool {
        true
    }

    /// `r` is an outcome of asking the kernel, through this sender, to close the
    /// backing id `id`. A sender may say what its outcomes are; by default any outcome
    /// is one.
    open spec fn backing_closed(&self, id: u32, r: Result<u32, std::io::Error>) -> bool {
        true
    }

    /// Send one complete notification message to the kernel: a message announcing its
    /// total length, with the unique id zero that marks a notification.
    fn notify(&self, data: &[u8]) -> (r: Result<(), std::io::Error>)
        requires
            spec_is_message(data@),
            spec_read_u64(data@, 8) == 0,
        ensures
            self.notified(data@, r),
    ;

    /// Close a backing id.
    fn close_backing(&self, id: u32) -> (r: Result<u32, std::io::Error>)
        ensures
            self.backing_closed(id, r),
    ;
}

/// Whether `std::io::Error::kind` of `e` is `NotFound`: a function of the error
/// alone.
pub uninterp spec fn io_error_not_found(e: std::io::Error) -> bool;

/// What an invalidation reports once the kernel answered `sent`: success stays
/// success, a failure of kind `NotFound` (the kernel no longer holding the entry)
/// becomes success, and any other failure is passed on.
pub open spec fn spec_inval_result(sent: Result<(), std::io::Error>, r: Result<(), std::io::Error>) -> bool {
    match sent {
        Ok(()) => r is Ok,
        Err(e) => if io_error_not_found(e) {
            r is Ok
        } else {
            r == sent
        },
    }
}

/// `std::io::Error::new` of kind `Other`, reporting a notification too large for its
/// length fields; its kind is not `NotFound`.
#[verifier::external_body]
fn too_big_err() -> (r: std::io::Error)
    ensures
        !io_error_not_found(r),
{
    std::io::Error::new(std::io::ErrorKind::Other, "Data too large")
}

/// `std::io::Error::kind`, compared with `NotFound`.
#[verifier::external_body]
fn is_not_found(err: &std::io::Error) -> (r: bool)
    ensures
        r == io_error_not_found(*err),
{
    err.kind() == std::io::ErrorKind::NotFound
}

/// An object which translates Notifications to a lower-level representation and sends
/// them to the kernel
#[derive(Debug)]
pub struct NotificationHandler<S: NotificationSender> {
    channel: S,
}

impl<S: NotificationSender> NotificationHandler<S> {
    /// The sender notifications go through.
    pub closed spec fn channel(&self) -> S {
        self.channel
    }

    /// Create a notification handler from a fuse channel
    pub fn new(channel: S) -> (r: Self)
        ensures
            r.channel() == channel,
    {
        NotificationHandler { channel }
    }

    /// `r` is what the channel reported for sending the message `m`.
    pub open spec fn sent(&self, m: Seq<u8>, r: Result<(), std::io::Error>) -> bool {
        exists|s: Result<(), std::io::Error>|
            #![trigger self.channel().notified(m, s)]
            self.channel().notified(m, s) && r == s
    }

    /// `r` is what an invalidation reports once the channel was handed the message
    /// `m`: what the channel reported, as `spec_inval_result` passes it on.
    pub open spec fn inval_sent(&self, m: Seq<u8>, r: Result<(), std::io::Error>) -> bool {
        exists|s: Result<(), std::io::Error>|
            #![trigger self.channel().notified(m, s)]
            self.channel().notified(m, s) && spec_inval_result(s, r)
    }

    /// `r` is what an invalidation reports for the message `m`: an error when there is
    /// no message (it is too large), else as `inval_sent` says.
    pub open spec fn sent_inval(&self, m: Option<Seq<u8>>, r: Result<(), std::io::Error>) -> bool {
        match m {
            None => r matches Err(e) && !io_error_not_found(e),
            Some(msg) => self.inval_sent(msg, r),
        }
    }

    /// `r` is what the channel reported for closing the backing id `id`, without the
    /// id number it gives back.
    pub open spec fn backing_close_sent(&self, id: u32, r: Result<(), std::io::Error>) -> bool {
        exists|s: Result<u32, std::io::Error>|
            #![trigger self.channel().backing_closed(id, s)]
            self.channel().backing_closed(id, s) && match s {
                Ok(_) => r is Ok,
                Err(e) => r == Err::<(), std::io::Error>(e),
            }
    }

    /// Send the notification queued as `notification`; `Disable` is handled by the
    /// notification loop and never reaches here.
    pub fn dispatch(self, notification: NotificationKind) -> (r: Result<(), std::io::Error>)
        requires
            !(notification is Disable),
        ensures
            match notification {
                NotificationKind::Poll(ph) => self.sent(
                    spec_notification(FUSE_NOTIFY_POLL, Some(spec_poll_payload(ph)))->0,
                    r,
                ),
                NotificationKind::InvalEntry(parent, name) => self.sent_inval(
                    spec_notification(FUSE_NOTIFY_INVAL_ENTRY, spec_inval_entry_payload(parent, name@)),
                    r,
                ),
                NotificationKind::InvalInode(ino, offset, len) => self.sent_inval(
                    spec_notification(FUSE_NOTIFY_INVAL_INODE, Some(spec_inval_inode_payload(ino, offset, len))),
                    r,
                ),
                NotificationKind::Store(ino, offset, data) => self.sent_inval(
                    spec_notification(FUSE_NOTIFY_STORE, spec_store_payload(ino, offset, data@)),
                    r,
                ),
                NotificationKind::Delete(parent, child, name) => self.sent_inval(
                    spec_notification(FUSE_NOTIFY_DELETE, spec_delete_payload(parent, child, name@)),
                    r,
                ),
                NotificationKind::CloseBacking(id) => self.backing_close_sent(id, r),
                NotificationKind::Disable => true,
            },
    {
        match notification {
            NotificationKind::Poll(ph) => self.poll(ph),
            NotificationKind::InvalEntry(parent, name) => self.inval_entry(parent, name.as_slice()),
            NotificationKind::InvalInode(ino, offset, len) => self.inval_inode(ino, offset, len),
            NotificationKind::Store(ino, offset, data) => self.store(ino, offset, data.as_slice()),
            NotificationKind::Delete(parent, child, name) => self.delete(parent, child, name.as_slice()),
            NotificationKind::CloseBacking(id) => {
                let res = self.channel.close_backing(id);
                let ghost closed = res;
                let r = match res {
                    Ok(_) => Ok(()),
                    Err(e) => Err(e),
                };
                assert(self.channel().backing_closed(id, closed));
                r
            },
            NotificationKind::Disable => Ok(()),
        }
    }

    /// Notify poll clients of I/O readiness: sends `poll_message(ph)`.
    pub fn poll(&self, ph: u64) -> (r: Result<(), std::io::Error>)
        ensures
            self.sent(spec_notification(FUSE_NOTIFY_POLL, Some(spec_poll_payload(ph)))->0, r),
    {
        let m = poll_message(ph);
        proof {
            law_message_announces_length_and_request(0, FUSE_NOTIFY_POLL, spec_poll_payload(ph));
        }
        let r = self.channel.notify(m.as_slice());
        assert(self.channel().notified(m@, r));
        r
    }

    /// Invalidate the kernel cache for a given directory entry: sends
    /// `inval_entry_message(parent, name)`, or fails when it is too large.
    pub fn inval_entry(&self, parent: u64, name: &[u8]) -> (r: Result<(), std::io::Error>)
        ensures
            self.sent_inval(spec_notification(FUSE_NOTIFY_INVAL_ENTRY, spec_inval_entry_payload(parent, name@)), r),
    {
        match inval_entry_message(parent, name) {
            Some(m) => {
                proof {
                    law_message_announces_length_and_request(
                        0,
                        FUSE_NOTIFY_INVAL_ENTRY,
                        spec_inval_entry_payload(parent, name@)->0,
                    );
                }
                self.send_inval(m.as_slice())
            },
            None => Err(too_big_err()),
        }
    }

    /// Invalidate the kernel cache for a given inode (metadata and data in the given
    /// range): sends `inval_inode_message(ino, offset, len)`.
    pub fn inval_inode(&self, ino: u64, offset: i64, len: i64) -> (r: Result<(), std::io::Error>)
        ensures
            self.sent_inval(
                spec_notification(FUSE_NOTIFY_INVAL_INODE, Some(spec_inval_inode_payload(ino, offset, len))),
                r,
            ),
    {
        let m = inval_inode_message(ino, offset, len);
        proof {
            law_message_announces_length_and_request(
                0,
                FUSE_NOTIFY_INVAL_INODE,
                spec_inval_inode_payload(ino, offset, len),
            );
        }
        self.send_inval(m.as_slice())
    }

    /// Update the kernel's cached copy of a given inode's data: sends
    /// `store_message(ino, offset, data)`, or fails when it is too large.
    pub fn store(&self, ino: u64, offset: u64, data: &[u8]) -> (r: Result<(), std::io::Error>)
        ensures
            self.sent_inval(spec_notification(FUSE_NOTIFY_STORE, spec_store_payload(ino, offset, data@)), r),
    {
        match store_message(ino, offset, data) {
            Some(m) => {
                proof {
                    law_message_announces_length_and_request(
                        0,
                        FUSE_NOTIFY_STORE,
                        spec_store_payload(ino, offset, data@)->0,
                    );
                }
                self.send_inval(m.as_slice())
            },
            None => Err(too_big_err()),
        }
    }

    /// Invalidate the kernel cache for a given directory entry and inform inotify
    /// watchers of a file deletion: sends `delete_message(parent, child, name)`, or
    /// fails when it is too large.
    pub fn delete(&self, parent: u64, child: u64, name: &[u8]) -> (r: Result<(), std::io::Error>)
        ensures
            self.sent_inval(spec_notification(FUSE_NOTIFY_DELETE, spec_delete_payload(parent, child, name@)), r),
    {
        match delete_message(parent, child, name) {
            Some(m) => {
                proof {
                    law_message_announces_length_and_request(
                        0,
                        FUSE_NOTIFY_DELETE,
                        spec_delete_payload(parent, child, name@)->0,
                    );
                }
                self.send_inval(m.as_slice())
            },
            None => Err(too_big_err()),
        }
    }

    /// Send an invalidation. ENOENT is harmless for an invalidation (the kernel may
    /// have already dropped the cached entry on its own anyway), so it is ignored.
    fn send_inval(&self, data: &[u8]) -> (r: Result<(), std::io::Error>)
        requires
            spec_is_message(data@),
            spec_read_u64(data@, 8) == 0,
        ensures
            self.sent_inval(Some(data@), r),
    {
        let res = self.channel.notify(data);
        let ghost sent = res;
        let r = match res {
            Ok(()) => Ok(()),
            Err(e) => {
                if is_not_found(&e) {
                    Ok(())
                } else {
                    Err(e)
                }
            },
        };
        assert(self.channel().notified(data@, sent) && spec_inval_result(sent, r));
        assert(self.inval_sent(data@, r));
        r
    }
}


/* ------ Layout laws ------ */

/// The header of a notification with `code` and a payload of `payload_len` bytes.
pub open spec fn spec_notification_header(code: i32, payload_len: nat) -> Seq<u8> {
    (FuseOutHeader { len: (payload_len + 16) as u32, error: code, unique: 0 }).spec_bytes()
}

/// A notification is its 16-byte header (total length, the code in the error field,
/// unique id zero) followed by its payload.
proof fn lemma_notification_message(code: i32, p: Seq<u8>)
    requires
        p.len() + 16 <= u32::MAX,
    ensures
        spec_notification(code, Some(p)) == Some(spec_notification_header(code, p.len()) + p),
        spec_notification_header(code, p.len()).len() == 16,
        ({
            let m = spec_notification(code, Some(p))->0;
            &&& m.len() == p.len() + 16
            &&& spec_read_u32(m, 0) == m.len()
            &&& spec_read_u32(m, 4) == code as u32
            &&& spec_read_u64(m, 8) == 0
        }),
{
    let m = spec_notification(code, Some(p))->0;
    law_message_announces_length_and_request(0, code, p);
    assert(m.subrange(4, 8) =~= le_u32(code as u32));
    law_read_u32_at(m, 4, code as u32);
}

/// A poll wakeup tells the kernel, after its header, the poll handle to wake.
pub proof fn law_poll_notification_layout(ph: u64)
    ensures
        spec_notification(FUSE_NOTIFY_POLL, Some(spec_poll_payload(ph))) is Some,
        ({
            let m = spec_notification(FUSE_NOTIFY_POLL, Some(spec_poll_payload(ph)))->0;
            &&& m.len() == 24
            &&& spec_read_u32(m, 0) == m.len()
            &&& spec_read_u32(m, 4) == FUSE_NOTIFY_POLL as u32
            &&& spec_read_u64(m, 8) == 0
            &&& spec_read_u64(m, 16) == ph
        }),
{
    let p = spec_poll_payload(ph);
    lemma_notification_message(FUSE_NOTIFY_POLL, p);
    let h = spec_notification_header(FUSE_NOTIFY_POLL, p.len());
    assert(p.subrange(0, 8) =~= le_u64(ph));
    law_read_u64_at(p, 0, ph);
    law_read_u64_in_tail(h, p, 0);
}

/// An inode invalidation tells the kernel, after its header, the inode, then the
/// offset and the length of the range to drop (two's complement).
pub proof fn law_inval_inode_notification_layout(ino: u64, offset: i64, len: i64)
    ensures
        spec_notification(FUSE_NOTIFY_INVAL_INODE, Some(spec_inval_inode_payload(ino, offset, len))) is Some,
        ({
            let m = spec_notification(FUSE_NOTIFY_INVAL_INODE, Some(spec_inval_inode_payload(ino, offset, len)))->0;
            &&& m.len() == 40
            &&& spec_read_u32(m, 0) == m.len()
            &&& spec_read_u32(m, 4) == FUSE_NOTIFY_INVAL_INODE as u32
            &&& spec_read_u64(m, 8) == 0
            &&& spec_read_u64(m, 16) == ino
            &&& spec_read_u64(m, 24) == offset as u64
            &&& spec_read_u64(m, 32) == len as u64
        }),
{
    let p = spec_inval_inode_payload(ino, offset, len);
    lemma_notification_message(FUSE_NOTIFY_INVAL_INODE, p);
    let h = spec_notification_header(FUSE_NOTIFY_INVAL_INODE, p.len());
    assert(p.subrange(0, 8) =~= le_u64(ino));
    law_read_u64_at(p, 0, ino);
    assert(p.subrange(8, 16) =~= le_u64(offset as u64));
    law_read_u64_at(p, 8, offset as u64);
    assert(p.subrange(16, 24) =~= le_u64(len as u64));
    law_read_u64_at(p, 16, len as u64);
    law_read_u64_in_tail(h, p, 0);
    law_read_u64_in_tail(h, p, 8);
    law_read_u64_in_tail(h, p, 16);
}

/// An entry invalidation is sent exactly when it fits the header's length field, and
/// tells the kernel, after its header, the parent directory, the name's length, and
/// the name with its terminating zero byte.
pub proof fn law_inval_entry_notification_layout(parent: u64, name: Seq<u8>)
    ensures
        spec_notification(FUSE_NOTIFY_INVAL_ENTRY, spec_inval_entry_payload(parent, name)) is Some
            <==> name.len() + 33 <= u32::MAX,
        name.len() + 33 <= u32::MAX ==> ({
            let m = spec_notification(FUSE_NOTIFY_INVAL_ENTRY, spec_inval_entry_payload(parent, name))->0;
            &&& m.len() == 33 + name.len()
            &&& spec_read_u32(m, 0) == m.len()
            &&& spec_read_u32(m, 4) == FUSE_NOTIFY_INVAL_ENTRY as u32
            &&& spec_read_u64(m, 8) == 0
            &&& spec_read_u64(m, 16) == parent
            &&& spec_read_u32(m, 24) == name.len()
            &&& m.subrange(32, 32 + name.len() as int) == name
            &&& m[32 + name.len() as int] == 0
        }),
{
    if name.len() + 33 <= u32::MAX {
        let p = spec_inval_entry_payload(parent, name)->0;
        lemma_notification_message(FUSE_NOTIFY_INVAL_ENTRY, p);
        let h = spec_notification_header(FUSE_NOTIFY_INVAL_ENTRY, p.len());
        let m = h + p;
        assert(p.subrange(0, 8) =~= le_u64(parent));
        law_read_u64_at(p, 0, parent);
        assert(p.subrange(8, 12) =~= le_u32(name.len() as u32));
        law_read_u32_at(p, 8, name.len() as u32);
        law_read_u64_in_tail(h, p, 0);
        law_read_u32_in_tail(h, p, 8);
        assert(m.subrange(32, 32 + name.len() as int) =~= name);
        assert(m[32 + name.len() as int] == p[16 + name.len() as int]);
    }
}

/// A data update is sent exactly when it fits the header's length field, and tells
/// the kernel, after its header, the inode, the offset, the data's length, and the
/// data.
pub proof fn law_store_notification_layout(ino: u64, offset: u64, data: Seq<u8>)
    ensures
        spec_notification(FUSE_NOTIFY_STORE, spec_store_payload(ino, offset, data)) is Some
            <==> data.len() + 40 <= u32::MAX,
        data.len() + 40 <= u32::MAX ==> ({
            let m = spec_notification(FUSE_NOTIFY_STORE, spec_store_payload(ino, offset, data))->0;
            &&& m.len() == 40 + data.len()
            &&& spec_read_u32(m, 0) == m.len()
            &&& spec_read_u32(m, 4) == FUSE_NOTIFY_STORE as u32
            &&& spec_read_u64(m, 8) == 0
            &&& spec_read_u64(m, 16) == ino
            &&& spec_read_u64(m, 24) == offset
            &&& spec_read_u32(m, 32) == data.len()
            &&& m.subrange(40, 40 + data.len() as int) == data
        }),
{
    if data.len() + 40 <= u32::MAX {
        let p = spec_store_payload(ino, offset, data)->0;
        lemma_notification_message(FUSE_NOTIFY_STORE, p);
        let h = spec_notification_header(FUSE_NOTIFY_STORE, p.len());
        let m = h + p;
        assert(p.subrange(0, 8) =~= le_u64(ino));
        law_read_u64_at(p, 0, ino);
        assert(p.subrange(8, 16) =~= le_u64(offset));
        law_read_u64_at(p, 8, offset);
        assert(p.subrange(16, 20) =~= le_u32(data.len() as u32));
        law_read_u32_at(p, 16, data.len() as u32);
        law_read_u64_in_tail(h, p, 0);
        law_read_u64_in_tail(h, p, 8);
        law_read_u32_in_tail(h, p, 16);
        assert(m.subrange(40, 40 + data.len() as int) =~= data);
    }
}

/// An entry deletion is sent exactly when it fits the header's length field, and
/// tells the kernel, after its header, the parent directory, then the inode of the
/// deleted entry, the name's length, and the name with its terminating zero byte.
pub proof fn law_delete_notification_layout(parent: u64, child: u64, name: Seq<u8>)
    ensures
        spec_notification(FUSE_NOTIFY_DELETE, spec_delete_payload(parent, child, name)) is Some
            <==> name.len() + 41 <= u32::MAX,
        name.len() + 41 <= u32::MAX ==> ({
            let m = spec_notification(FUSE_NOTIFY_DELETE, spec_delete_payload(parent, child, name))->0;
            &&& m.len() == 41 + name.len()
            &&& spec_read_u32(m, 0) == m.len()
            &&& spec_read_u32(m, 4) == FUSE_NOTIFY_DELETE as u32
            &&& spec_read_u64(m, 8) == 0
            &&& spec_read_u64(m, 16) == parent
            &&& spec_read_u64(m, 24) == child
            &&& spec_read_u32(m, 32) == name.len()
            &&& m.subrange(40, 40 + name.len() as int) == name
            &&& m[40 + name.len() as int] == 0
        }),
{
    if name.len() + 41 <= u32::MAX {
        let p = spec_delete_payload(parent, child, name)->0;
        lemma_notification_message(FUSE_NOTIFY_DELETE, p);
        let h = spec_notification_header(FUSE_NOTIFY_DELETE, p.len());
        let m = h + p;
        assert(p.subrange(0, 8) =~= le_u64(parent));
        law_read_u64_at(p, 0, parent);
        assert(p.subrange(8, 16) =~= le_u64(child));
        law_read_u64_at(p, 8, child);
        assert(p.subrange(16, 20) =~= le_u32(name.len() as u32));
        law_read_u32_at(p, 16, name.len() as u32);
        law_read_u64_in_tail(h, p, 0);
        law_read_u64_in_tail(h, p, 8);
        law_read_u32_in_tail(h, p, 16);
        assert(m.subrange(40, 40 + name.len() as int) =~= name);
        assert(m[40 + name.len() as int] == p[24 + name.len() as int]);
    }
}

} // verus!
