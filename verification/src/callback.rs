//! Callback handlers and callback containers for filesystem replies.
//!
//! A filesystem answers each request through a reply container holding a callback.
//! The callback decides how the answer travels; the one the library provides wraps a
//! [`ReplyHandler`] in an `Option`, taking it out on the first answer so that a
//! request is answered at most once. Each callback method leaves its callback in the
//! replied state.

use vstd::prelude::*;

use crate::time::{Timestamp, Ttl};

use crate::abi::{FuseDirent, FuseDirentPlus, FOPEN_PASSTHROUGH};
use crate::passthrough::{BackingCloser, BackingId};
use crate::data::{dirent_type, fuse_attr_from_attr, FileAttr, FileType};
use crate::dirent::{spec_dirent_head, spec_plus_head, spec_push, EntListBuf};
use crate::abi::{le_i64, le_u64};
use crate::reply::{
    entry_out, spec_errno, spec_error_field, spec_ioctl_out, spec_lock_out, spec_open_out, spec_statfs_out,
    spec_u32_out, Attr, Entry, Ioctl, Lock, Open, ReplyHandler, ReplySender, Statfs, XTimes,
};

verus! {

/* ------ Err ------ */

/// Custom callback handler for any Reply
pub trait CallbackErr {
    /// Answering with the error `err` through this callback does what this says. A callback may
    /// say what it sends; by default anything may be sent.
    open spec fn answers_error(&self, err: i32) -> bool {
        true
    }

    /// Whether the callback has answered its request.
    spec fn replied(&self) -> bool;

    /// Reply to a request with the given error code
    fn error(&mut self, err: i32)
        ensures
            old(self).answers_error(err),
            final(self).replied(),
    ;
}

/// Legacy callback handler for any Reply
impl<S: ReplySender> CallbackErr for Option<ReplyHandler<S>> {
    open spec fn answers_error(&self, err: i32) -> bool {
        match self {
            Some(h) => h.replies(spec_error_field(spec_errno(err)), Seq::empty()),
            None => true,
        }
    }

    open spec fn replied(&self) -> bool {
        self is None
    }

    fn error(&mut self, err: i32) {
        if let Some(handler) = self.take() {
            handler.error(err);
        }
    }
}

/// An optional reply handler answers at most once. Every callback method (`error`,
/// `ok`, `data`, `entry` and the rest) leaves the option in the replied state, and the
/// replied state is the empty option: no handler, and so no sender, is left for a later
/// answer to go through, and a later `error` leaves it empty.
pub proof fn law_handler_answers_once<S: ReplySender>(opt: Option<ReplyHandler<S>>)
    requires
        opt.replied(),
    ensures
        opt is None,
{
}

/* ------ Ok ------ */

/// Custom callback handler for ReplyEmpty
pub trait CallbackOk: CallbackErr {
    /// Answering with an empty reply through this callback does what this says. A callback may
    /// say what it sends; by default anything may be sent.
    open spec fn answers_ok(&self) -> bool {
        true
    }

    /// Reply to a request with nothing
    fn ok(&mut self)
        ensures
            old(self).answers_ok(),
            final(self).replied(),
    ;
}

/// Legacy callback handler for ReplyEmpty
impl<S: ReplySender> CallbackOk for Option<ReplyHandler<S>> {
    open spec fn answers_ok(&self) -> bool {
        match self {
            Some(h) => h.replies(0, Seq::empty()),
            None => true,
        }
    }

    fn ok(&mut self) {
        if let Some(handler) = self.take() {
            handler.ok();
        }
    }
}

/* ------ Data ------ */

/// Custom callback handler for ReplyData
pub trait CallbackData: CallbackErr {
    /// Answering with the bytes `data` through this callback does what this says. A callback may
    /// say what it sends; by default anything may be sent.
    open spec fn answers_data(&self, data: Seq<u8>) -> bool {
        true
    }

    /// Reply to a request with the given data
    fn data(&mut self, data: &[u8])
        ensures
            old(self).answers_data(data@),
            final(self).replied(),
    ;
}

/// Legacy callback handler for ReplyData
impl<S: ReplySender> CallbackData for Option<ReplyHandler<S>> {
    open spec fn answers_data(&self, data: Seq<u8>) -> bool {
        match self {
            Some(h) => h.replies(0, data),
            None => true,
        }
    }

    fn data(&mut self, data: &[u8]) {
        if let Some(handler) = self.take() {
            handler.data(data);
        }
    }
}

/* ------ Entry ------ */

/// Custom callback handler for ReplyEntry
pub trait CallbackEntry: CallbackErr {
    /// Answering with the entry of `attr` with time-to-live `ttl` and generation `generation` through this callback does what this says. A callback may
    /// say what it sends; by default anything may be sent.
    open spec fn answers_entry(&self, ttl: Ttl, attr: FileAttr, generation: u64) -> bool {
        true
    }

    /// Reply to a request with the given entry
    fn entry(&mut self, ttl: &Ttl, attr: &FileAttr, generation: u64)
        ensures
            old(self).answers_entry(*ttl, *attr, generation),
            final(self).replied(),
    ;
}

/// Legacy callback handler for ReplyEntry
impl<S: ReplySender> CallbackEntry for Option<ReplyHandler<S>> {
    open spec fn answers_entry(&self, ttl: Ttl, attr: FileAttr, generation: u64) -> bool {
        match self {
            Some(h) => h.replies_entry(Entry { attr, ttl, generation }),
            None => true,
        }
    }

    fn entry(&mut self, ttl: &Ttl, attr: &FileAttr, generation: u64) {
        if let Some(handler) = self.take() {
            handler.entry(Entry { attr: *attr, ttl: *ttl, generation });
        }
    }
}

/* ------ Attr ------ */

/// Custom callback handler for ReplyAttr
pub trait CallbackAttr: CallbackErr {
    /// Answering with the attributes `attr` with time-to-live `ttl` through this callback does what this says. A callback may
    /// say what it sends; by default anything may be sent.
    open spec fn answers_attr(&self, ttl: Ttl, attr: FileAttr) -> bool {
        true
    }

    /// Reply to a request with the given attribute
    fn attr(&mut self, ttl: &Ttl, attr: &FileAttr)
        ensures
            old(self).answers_attr(*ttl, *attr),
            final(self).replied(),
    ;
}

/// Legacy callback handler for ReplyAttr
impl<S: ReplySender> CallbackAttr for Option<ReplyHandler<S>> {
    open spec fn answers_attr(&self, ttl: Ttl, attr: FileAttr) -> bool {
        match self {
            Some(h) => h.replies_attr(Attr { attr, ttl }),
            None => true,
        }
    }

    fn attr(&mut self, ttl: &Ttl, attr: &FileAttr) {
        if let Some(handler) = self.take() {
            handler.attr(Attr { attr: *attr, ttl: *ttl });
        }
    }
}

/* ------ XTimes ------ */

/// Custom callback handler for ReplyXTimes
pub trait CallbackXTimes: CallbackErr {
    /// Answering with the times `bkuptime` and `crtime` through this callback does what this says. A callback may
    /// say what it sends; by default anything may be sent.
    open spec fn answers_xtimes(&self, bkuptime: Timestamp, crtime: Timestamp) -> bool {
        true
    }

    /// Reply to a request with the given xtimes
    fn xtimes(&mut self, bkuptime: Timestamp, crtime: Timestamp)
        ensures
            old(self).answers_xtimes(bkuptime, crtime),
            final(self).replied(),
    ;
}

/// Legacy callback handler for ReplyXTimes
impl<S: ReplySender> CallbackXTimes for Option<ReplyHandler<S>> {
    open spec fn answers_xtimes(&self, bkuptime: Timestamp, crtime: Timestamp) -> bool {
        match self {
            Some(h) => h.replies_xtimes(XTimes { bkuptime, crtime }),
            None => true,
        }
    }

    fn xtimes(&mut self, bkuptime: Timestamp, crtime: Timestamp) {
        if let Some(handler) = self.take() {
            handler.xtimes(XTimes { bkuptime, crtime });
        }
    }
}

/* ------ Open ------ */

/// Custom callback handler for ReplyOpen
pub trait CallbackOpen: CallbackErr {
    /// Answering with the file handle `fh` opened with `flags`, passed through to the backing id `backing_id` through this callback does what this says. A callback may
    /// say what it sends; by default anything may be sent.
    open spec fn answers_opened_passthrough(&self, fh: u64, flags: u32, backing_id: u32) -> bool {
        true
    }

    /// Answering with the file handle `fh` opened with `flags` through this callback does what this says. A callback may
    /// say what it sends; by default anything may be sent.
    open spec fn answers_opened(&self, fh: u64, flags: u32) -> bool {
        true
    }

    /// Reply to a request with the given open result
    fn opened(&mut self, fh: u64, flags: u32)
        ensures
            old(self).answers_opened(fh, flags),
            final(self).replied(),
    ;

    /// Reply to a request with an opened backing id. Call `BackingHandler::open_backing()`
    /// to get one of these. A closed (zero) backing id cannot be passed through, and
    /// leaves the request unanswered.
    fn opened_passthrough(&mut self, fh: u64, flags: u32, backing_id: u32)
        ensures
            old(self).answers_opened_passthrough(fh, flags, backing_id),
            backing_id != 0 ==> final(self).replied(),
            backing_id == 0 ==> final(self).replied() == old(self).replied(),
    ;
}

/// Legacy callback handler for ReplyOpen
impl<S: ReplySender> CallbackOpen for Option<ReplyHandler<S>> {
    open spec fn answers_opened_passthrough(&self, fh: u64, flags: u32, backing_id: u32) -> bool {
        match self {
            Some(h) => backing_id != 0 ==> h.replies(0, spec_open_out(Open { fh, flags: flags | FOPEN_PASSTHROUGH, backing_id: Some(backing_id) })),
            None => true,
        }
    }

    open spec fn answers_opened(&self, fh: u64, flags: u32) -> bool {
        match self {
            Some(h) => h.replies(0, spec_open_out(Open { fh, flags, backing_id: None })),
            None => true,
        }
    }

    fn opened(&mut self, fh: u64, flags: u32) {
        if let Some(handler) = self.take() {
            handler.opened(Open { fh, flags, backing_id: None });
        }
    }

    /// The open reply carries the backing id and the passthrough flag.
    fn opened_passthrough(&mut self, fh: u64, flags: u32, backing_id: u32)
        ensures
            backing_id == 0 ==> *final(self) == *old(self),
    {
        if backing_id != 0 {
            if let Some(handler) = self.take() {
                handler.opened(Open { fh, flags: flags | FOPEN_PASSTHROUGH, backing_id: Some(backing_id) });
            }
        }
    }
}

/* ------ Write ------ */

/// Custom callback handler for ReplyWrite
pub trait CallbackWrite: CallbackErr {
    /// Answering with the written size `size` through this callback does what this says. A callback may
    /// say what it sends; by default anything may be sent.
    open spec fn answers_written(&self, size: u32) -> bool {
        true
    }

    /// Reply to a request with the number of bytes written
    fn written(&mut self, size: u32)
        ensures
            old(self).answers_written(size),
            final(self).replied(),
    ;
}

/// Legacy callback handler for ReplyWrite
impl<S: ReplySender> CallbackWrite for Option<ReplyHandler<S>> {
    open spec fn answers_written(&self, size: u32) -> bool {
        match self {
            Some(h) => h.replies(0, spec_u32_out(size)),
            None => true,
        }
    }

    fn written(&mut self, size: u32) {
        if let Some(handler) = self.take() {
            handler.written(size);
        }
    }
}

/* ------ Statfs ------ */

/// Custom callback handler for ReplyStatfs
pub trait CallbackStatfs: CallbackErr {
    /// Answering with the filesystem information given through this callback does what this says. A callback may
    /// say what it sends; by default anything may be sent.
    open spec fn answers_statfs(&self, blocks: u64, bfree: u64, bavail: u64, files: u64, ffree: u64, bsize: u32, namelen: u32, frsize: u32) -> bool {
        true
    }

    /// Reply to a request with filesystem information
    fn statfs(
        &mut self,
        blocks: u64,
        bfree: u64,
        bavail: u64,
        files: u64,
        ffree: u64,
        bsize: u32,
        namelen: u32,
        frsize: u32,
    )
        ensures
            old(self).answers_statfs(blocks, bfree, bavail, files, ffree, bsize, namelen, frsize),
            final(self).replied(),
    ;
}

/// Legacy callback handler for ReplyStatfs
impl<S: ReplySender> CallbackStatfs for Option<ReplyHandler<S>> {
    open spec fn answers_statfs(&self, blocks: u64, bfree: u64, bavail: u64, files: u64, ffree: u64, bsize: u32, namelen: u32, frsize: u32) -> bool {
        match self {
            Some(h) => h.replies(0, spec_statfs_out(Statfs { blocks, bfree, bavail, files, ffree, bsize, namelen, frsize })),
            None => true,
        }
    }

    fn statfs(
        &mut self,
        blocks: u64,
        bfree: u64,
        bavail: u64,
        files: u64,
        ffree: u64,
        bsize: u32,
        namelen: u32,
        frsize: u32,
    ) {
        if let Some(handler) = self.take() {
            handler.statfs(Statfs { blocks, bfree, bavail, files, ffree, bsize, namelen, frsize });
        }
    }
}

/* ------ Create ------ */

/// Custom callback handler for ReplyCreate
pub trait CallbackCreate: CallbackErr {
    /// Answering with the entry of `attr` (as for `answers_entry`) and the file handle `fh` opened with `flags` through this callback does what this says. A callback may
    /// say what it sends; by default anything may be sent.
    open spec fn answers_created(&self, ttl: Ttl, attr: FileAttr, generation: u64, fh: u64, flags: u32) -> bool {
        true
    }

    /// Reply to a request with the given entry and file handle
    fn created(&mut self, ttl: &Ttl, attr: &FileAttr, generation: u64, fh: u64, flags: u32)
        ensures
            old(self).answers_created(*ttl, *attr, generation, fh, flags),
            final(self).replied(),
    ;
}

/// Legacy callback handler for ReplyCreate
impl<S: ReplySender> CallbackCreate for Option<ReplyHandler<S>> {
    open spec fn answers_created(&self, ttl: Ttl, attr: FileAttr, generation: u64, fh: u64, flags: u32) -> bool {
        match self {
            Some(h) => h.replies_created(Entry { attr, ttl, generation }, Open { fh, flags, backing_id: None }),
            None => true,
        }
    }

    fn created(&mut self, ttl: &Ttl, attr: &FileAttr, generation: u64, fh: u64, flags: u32) {
        if let Some(handler) = self.take() {
            handler.created(Entry { attr: *attr, ttl: *ttl, generation }, Open { fh, flags, backing_id: None });
        }
    }
}

/* ------ Lock ------ */

/// Custom callback handler for ReplyLock
pub trait CallbackLock: CallbackErr {
    /// Answering with the lock given through this callback does what this says. A callback may
    /// say what it sends; by default anything may be sent.
    open spec fn answers_locked(&self, start: u64, end: u64, typ: i32, pid: u32) -> bool {
        true
    }

    /// Reply to a request with the given lock result
    fn locked(&mut self, start: u64, end: u64, typ: i32, pid: u32)
        ensures
            old(self).answers_locked(start, end, typ, pid),
            final(self).replied(),
    ;
}

/// Legacy callback handler for ReplyLock
impl<S: ReplySender> CallbackLock for Option<ReplyHandler<S>> {
    open spec fn answers_locked(&self, start: u64, end: u64, typ: i32, pid: u32) -> bool {
        match self {
            Some(h) => h.replies(0, spec_lock_out(Lock { start, end, typ, pid })),
            None => true,
        }
    }

    fn locked(&mut self, start: u64, end: u64, typ: i32, pid: u32) {
        if let Some(handler) = self.take() {
            handler.locked(Lock { start, end, typ, pid });
        }
    }
}

/* ------ Bmap ------ */

/// Custom callback handler for ReplyBmap
pub trait CallbackBmap: CallbackErr {
    /// Answering with the block `block` through this callback does what this says. A callback may
    /// say what it sends; by default anything may be sent.
    open spec fn answers_bmap(&self, block: u64) -> bool {
        true
    }

    /// Reply to a request with the given block result
    fn bmap(&mut self, block: u64)
        ensures
            old(self).answers_bmap(block),
            final(self).replied(),
    ;
}

/// Legacy callback handler for ReplyBmap
impl<S: ReplySender> CallbackBmap for Option<ReplyHandler<S>> {
    open spec fn answers_bmap(&self, block: u64) -> bool {
        match self {
            Some(h) => h.replies(0, le_u64(block)),
            None => true,
        }
    }

    fn bmap(&mut self, block: u64) {
        if let Some(handler) = self.take() {
            handler.bmap(block);
        }
    }
}

/* ------ Ioctl ------ */

/// Custom callback handler for ReplyIoctl
pub trait CallbackIoctl: CallbackErr {
    /// Answering with the ioctl result `result` and its `data` through this callback does what this says. A callback may
    /// say what it sends; by default anything may be sent.
    open spec fn answers_ioctl(&self, result: i32, data: Seq<u8>) -> bool {
        true
    }

    /// Reply to a request with the given data result
    fn ioctl(&mut self, result: i32, data: &[u8])
        ensures
            old(self).answers_ioctl(result, data@),
            final(self).replied(),
    ;
}

/// Legacy callback handler for ReplyIoctl
impl<S: ReplySender> CallbackIoctl for Option<ReplyHandler<S>> {
    open spec fn answers_ioctl(&self, result: i32, data: Seq<u8>) -> bool {
        match self {
            Some(h) => h.replies(0, spec_ioctl_out(result, data)),
            None => true,
        }
    }

    fn ioctl(&mut self, result: i32, data: &[u8]) {
        if let Some(handler) = self.take() {
            let mut copy: Vec<u8> = Vec::new();
            crate::abi::push_bytes(&mut copy, data);
            handler.ioctl(Ioctl { result, data: copy });
        }
    }
}

/* ------ Poll ------ */

/// Custom callback handler for ReplyPoll
pub trait CallbackPoll: CallbackErr {
    /// Answering with the poll events `revents` through this callback does what this says. A callback may
    /// say what it sends; by default anything may be sent.
    open spec fn answers_poll(&self, revents: u32) -> bool {
        true
    }

    /// Reply to a request with the given poll result
    fn poll(&mut self, revents: u32)
        ensures
            old(self).answers_poll(revents),
            final(self).replied(),
    ;
}

/// Legacy callback handler for ReplyPoll
impl<S: ReplySender> CallbackPoll for Option<ReplyHandler<S>> {
    open spec fn answers_poll(&self, revents: u32) -> bool {
        match self {
            Some(h) => h.replies(0, spec_u32_out(revents)),
            None => true,
        }
    }

    fn poll(&mut self, revents: u32) {
        if let Some(handler) = self.take() {
            handler.poll(revents);
        }
    }
}

/* ------ Xattr ------ */

/// Custom callback handler for ReplyXattr
pub trait CallbackXattr: CallbackErr {
    /// Answering with the extended attribute bytes `data` through this callback does what this says. A callback may
    /// say what it sends; by default anything may be sent.
    open spec fn answers_xattr_data(&self, data: Seq<u8>) -> bool {
        true
    }

    /// Answering with the extended attribute size `size` through this callback does what this says. A callback may
    /// say what it sends; by default anything may be sent.
    open spec fn answers_xattr_size(&self, size: u32) -> bool {
        true
    }

    /// Reply to a request with the size of the xattr.
    fn size(&mut self, size: u32)
        ensures
            old(self).answers_xattr_size(size),
            final(self).replied(),
    ;

    /// Reply to a request with the data in the xattr.
    fn data(&mut self, data: &[u8])
        ensures
            old(self).answers_xattr_data(data@),
            final(self).replied(),
    ;
}

/// Legacy callback handler for ReplyXattr
impl<S: ReplySender> CallbackXattr for Option<ReplyHandler<S>> {
    open spec fn answers_xattr_data(&self, data: Seq<u8>) -> bool {
        match self {
            Some(h) => h.replies(0, data),
            None => true,
        }
    }

    open spec fn answers_xattr_size(&self, size: u32) -> bool {
        match self {
            Some(h) => h.replies(0, spec_u32_out(size)),
            None => true,
        }
    }

    fn size(&mut self, size: u32) {
        if let Some(handler) = self.take() {
            handler.xattr_size(size);
        }
    }

    fn data(&mut self, data: &[u8]) {
        if let Some(handler) = self.take() {
            handler.xattr_data(crate::byte_box::ByteBox::Borrowed(data));
        }
    }
}

/* ------ Lseek ------ */

/// Custom callback handler for ReplyLseek
pub trait CallbackLseek: CallbackErr {
    /// Answering with the offset `offset` through this callback does what this says. A callback may
    /// say what it sends; by default anything may be sent.
    open spec fn answers_offset(&self, offset: i64) -> bool {
        true
    }

    /// Reply to a request with the given offset
    fn offset(&mut self, offset: i64)
        ensures
            old(self).answers_offset(offset),
            final(self).replied(),
    ;
}

/// Legacy callback handler for ReplyLseek
impl<S: ReplySender> CallbackLseek for Option<ReplyHandler<S>> {
    open spec fn answers_offset(&self, offset: i64) -> bool {
        match self {
            Some(h) => h.replies(0, le_i64(offset)),
            None => true,
        }
    }

    fn offset(&mut self, offset: i64) {
        if let Some(handler) = self.take() {
            handler.offset(offset);
        }
    }
}

/* ------ Containers ------ */

/// Callback container for operations that respond Ok
pub struct ReplyEmpty<C: CallbackOk> {
    reply: C,
}

impl<C: CallbackOk> ReplyEmpty<C> {
    /// The callback this container answers through.
    pub closed spec fn callback(&self) -> C {
        self.reply
    }

    /// Create a ReplyEmpty from the given callback.
    pub fn new(reply: C) -> (r: Self)
        ensures
            r.callback() == reply,
    {
        ReplyEmpty { reply }
    }

    /// Answer the request through the callback's `ok`.
    pub fn ok(self)
        ensures
            self.callback().answers_ok(),
    {
        let mut me = self;
        me.reply.ok();
    }

    /// Reply to a request with the given error code
    pub fn error(self, err: i32)
        ensures
            self.callback().answers_error(err),
    {
        let mut me = self;
        me.reply.error(err);
    }
}

/// Callback container for operations that respond with bytes
pub struct ReplyData<C: CallbackData> {
    reply: C,
}

impl<C: CallbackData> ReplyData<C> {
    /// The callback this container answers through.
    pub closed spec fn callback(&self) -> C {
        self.reply
    }

    /// Create a ReplyData from the given callback.
    pub fn new(reply: C) -> (r: Self)
        ensures
            r.callback() == reply,
    {
        ReplyData { reply }
    }

    /// Answer the request through the callback's `data`.
    pub fn data(self, data: &[u8])
        ensures
            self.callback().answers_data(data@),
    {
        let mut me = self;
        me.reply.data(data);
    }

    /// Reply to a request with the given error code
    pub fn error(self, err: i32)
        ensures
            self.callback().answers_error(err),
    {
        let mut me = self;
        me.reply.error(err);
    }
}

/// Callback container for operations that respond with file information
pub struct ReplyEntry<C: CallbackEntry> {
    reply: C,
}

impl<C: CallbackEntry> ReplyEntry<C> {
    /// The callback this container answers through.
    pub closed spec fn callback(&self) -> C {
        self.reply
    }

    /// Create a ReplyEntry from the given callback.
    pub fn new(reply: C) -> (r: Self)
        ensures
            r.callback() == reply,
    {
        ReplyEntry { reply }
    }

    /// Answer the request through the callback's `entry`.
    pub fn entry(self, ttl: &Ttl, attr: &FileAttr, generation: u64)
        ensures
            self.callback().answers_entry(*ttl, *attr, generation),
    {
        let mut me = self;
        me.reply.entry(ttl, attr, generation);
    }

    /// Reply to a request with the given error code
    pub fn error(self, err: i32)
        ensures
            self.callback().answers_error(err),
    {
        let mut me = self;
        me.reply.error(err);
    }
}

/// Callback container for operations that respond with file attributes
pub struct ReplyAttr<C: CallbackAttr> {
    reply: C,
}

impl<C: CallbackAttr> ReplyAttr<C> {
    /// The callback this container answers through.
    pub closed spec fn callback(&self) -> C {
        self.reply
    }

    /// Create a ReplyAttr from the given callback.
    pub fn new(reply: C) -> (r: Self)
        ensures
            r.callback() == reply,
    {
        ReplyAttr { reply }
    }

    /// Answer the request through the callback's `attr`.
    pub fn attr(self, ttl: &Ttl, attr: &FileAttr)
        ensures
            self.callback().answers_attr(*ttl, *attr),
    {
        let mut me = self;
        me.reply.attr(ttl, attr);
    }

    /// Reply to a request with the given error code
    pub fn error(self, err: i32)
        ensures
            self.callback().answers_error(err),
    {
        let mut me = self;
        me.reply.error(err);
    }
}

/// Callback container for operations that respond with xtimes
pub struct ReplyXTimes<C: CallbackXTimes> {
    reply: C,
}

impl<C: CallbackXTimes> ReplyXTimes<C> {
    /// The callback this container answers through.
    pub closed spec fn callback(&self) -> C {
        self.reply
    }

    /// Create a ReplyXTimes from the given callback.
    pub fn new(reply: C) -> (r: Self)
        ensures
            r.callback() == reply,
    {
        ReplyXTimes { reply }
    }

    /// Answer the request through the callback's `xtimes`.
    pub fn xtimes(self, bkuptime: Timestamp, crtime: Timestamp)
        ensures
            self.callback().answers_xtimes(bkuptime, crtime),
    {
        let mut me = self;
        me.reply.xtimes(bkuptime, crtime);
    }

    /// Reply to a request with the given error code
    pub fn error(self, err: i32)
        ensures
            self.callback().answers_error(err),
    {
        let mut me = self;
        me.reply.error(err);
    }
}

/// Callback container for operations that respond with file handles
pub struct ReplyOpen<C: CallbackOpen> {
    reply: C,
}

impl<C: CallbackOpen> ReplyOpen<C> {
    /// The callback this container answers through.
    pub closed spec fn callback(&self) -> C {
        self.reply
    }

    /// Create a ReplyOpen from the given callback.
    pub fn new(reply: C) -> (r: Self)
        ensures
            r.callback() == reply,
    {
        ReplyOpen { reply }
    }

    /// Answer the request through the callback's `opened`.
    pub fn opened(self, fh: u64, flags: u32)
        ensures
            self.callback().answers_opened(fh, flags),
    {
        let mut me = self;
        me.reply.opened(fh, flags);
    }

    /// Reply to a request with an opened backing id, through the callback's
    /// `opened_passthrough`.
    pub fn opened_passthrough<K: BackingCloser>(self, fh: u64, flags: u32, backing_id: &BackingId<K>)
        ensures
            self.callback().answers_opened_passthrough(fh, flags, backing_id.number()),
    {
        let mut me = self;
        me.reply.opened_passthrough(fh, flags, backing_id.get());
    }

    /// Reply to a request with the given error code
    pub fn error(self, err: i32)
        ensures
            self.callback().answers_error(err),
    {
        let mut me = self;
        me.reply.error(err);
    }
}

/// Callback container for operations that respond with the size of data written
pub struct ReplyWrite<C: CallbackWrite> {
    reply: C,
}

impl<C: CallbackWrite> ReplyWrite<C> {
    /// The callback this container answers through.
    pub closed spec fn callback(&self) -> C {
        self.reply
    }

    /// Create a ReplyWrite from the given callback.
    pub fn new(reply: C) -> (r: Self)
        ensures
            r.callback() == reply,
    {
        ReplyWrite { reply }
    }

    /// Answer the request through the callback's `written`.
    pub fn written(self, size: u32)
        ensures
            self.callback().answers_written(size),
    {
        let mut me = self;
        me.reply.written(size);
    }

    /// Reply to a request with the given error code
    pub fn error(self, err: i32)
        ensures
            self.callback().answers_error(err),
    {
        let mut me = self;
        me.reply.error(err);
    }
}

/// Callback container for operations that respond with filesystem information
pub struct ReplyStatfs<C: CallbackStatfs> {
    reply: C,
}

impl<C: CallbackStatfs> ReplyStatfs<C> {
    /// The callback this container answers through.
    pub closed spec fn callback(&self) -> C {
        self.reply
    }

    /// Create a ReplyStatfs from the given callback.
    pub fn new(reply: C) -> (r: Self)
        ensures
            r.callback() == reply,
    {
        ReplyStatfs { reply }
    }

    /// Answer the request through the callback's `statfs`.
    pub fn statfs(self, blocks: u64, bfree: u64, bavail: u64, files: u64, ffree: u64, bsize: u32, namelen: u32, frsize: u32)
        ensures
            self.callback().answers_statfs(blocks, bfree, bavail, files, ffree, bsize, namelen, frsize),
    {
        let mut me = self;
        me.reply.statfs(blocks, bfree, bavail, files, ffree, bsize, namelen, frsize);
    }

    /// Reply to a request with the given error code
    pub fn error(self, err: i32)
        ensures
            self.callback().answers_error(err),
    {
        let mut me = self;
        me.reply.error(err);
    }
}

/// Callback container for operations that respond with file handles and file information
pub struct ReplyCreate<C: CallbackCreate> {
    reply: C,
}

impl<C: CallbackCreate> ReplyCreate<C> {
    /// The callback this container answers through.
    pub closed spec fn callback(&self) -> C {
        self.reply
    }

    /// Create a ReplyCreate from the given callback.
    pub fn new(reply: C) -> (r: Self)
        ensures
            r.callback() == reply,
    {
        ReplyCreate { reply }
    }

    /// Answer the request through the callback's `created`.
    pub fn created(self, ttl: &Ttl, attr: &FileAttr, generation: u64, fh: u64, flags: u32)
        ensures
            self.callback().answers_created(*ttl, *attr, generation, fh, flags),
    {
        let mut me = self;
        me.reply.created(ttl, attr, generation, fh, flags);
    }

    /// Reply to a request with the given error code
    pub fn error(self, err: i32)
        ensures
            self.callback().answers_error(err),
    {
        let mut me = self;
        me.reply.error(err);
    }
}

/// Callback container for operations that respond with file locks
pub struct ReplyLock<C: CallbackLock> {
    reply: C,
}

impl<C: CallbackLock> ReplyLock<C> {
    /// The callback this container answers through.
    pub closed spec fn callback(&self) -> C {
        self.reply
    }

    /// Create a ReplyLock from the given callback.
    pub fn new(reply: C) -> (r: Self)
        ensures
            r.callback() == reply,
    {
        ReplyLock { reply }
    }

    /// Answer the request through the callback's `locked`.
    pub fn locked(self, start: u64, end: u64, typ: i32, pid: u32)
        ensures
            self.callback().answers_locked(start, end, typ, pid),
    {
        let mut me = self;
        me.reply.locked(start, end, typ, pid);
    }

    /// Reply to a request with the given error code
    pub fn error(self, err: i32)
        ensures
            self.callback().answers_error(err),
    {
        let mut me = self;
        me.reply.error(err);
    }
}

/// Callback container for operations that respond with bmap blocks
pub struct ReplyBmap<C: CallbackBmap> {
    reply: C,
}

impl<C: CallbackBmap> ReplyBmap<C> {
    /// The callback this container answers through.
    pub closed spec fn callback(&self) -> C {
        self.reply
    }

    /// Create a ReplyBmap from the given callback.
    pub fn new(reply: C) -> (r: Self)
        ensures
            r.callback() == reply,
    {
        ReplyBmap { reply }
    }

    /// Answer the request through the callback's `bmap`.
    pub fn bmap(self, block: u64)
        ensures
            self.callback().answers_bmap(block),
    {
        let mut me = self;
        me.reply.bmap(block);
    }

    /// Reply to a request with the given error code
    pub fn error(self, err: i32)
        ensures
            self.callback().answers_error(err),
    {
        let mut me = self;
        me.reply.error(err);
    }
}

/// Callback container for operations that respond with ioctl data
pub struct ReplyIoctl<C: CallbackIoctl> {
    reply: C,
}

impl<C: CallbackIoctl> ReplyIoctl<C> {
    /// The callback this container answers through.
    pub closed spec fn callback(&self) -> C {
        self.reply
    }

    /// Create a ReplyIoctl from the given callback.
    pub fn new(reply: C) -> (r: Self)
        ensures
            r.callback() == reply,
    {
        ReplyIoctl { reply }
    }

    /// Answer the request through the callback's `ioctl`.
    pub fn ioctl(self, result: i32, data: &[u8])
        ensures
            self.callback().answers_ioctl(result, data@),
    {
        let mut me = self;
        me.reply.ioctl(result, data);
    }

    /// Reply to a request with the given error code
    pub fn error(self, err: i32)
        ensures
            self.callback().answers_error(err),
    {
        let mut me = self;
        me.reply.error(err);
    }
}

/// Callback container for operations that respond with poll events
pub struct ReplyPoll<C: CallbackPoll> {
    reply: C,
}

impl<C: CallbackPoll> ReplyPoll<C> {
    /// The callback this container answers through.
    pub closed spec fn callback(&self) -> C {
        self.reply
    }

    /// Create a ReplyPoll from the given callback.
    pub fn new(reply: C) -> (r: Self)
        ensures
            r.callback() == reply,
    {
        ReplyPoll { reply }
    }

    /// Answer the request through the callback's `poll`.
    pub fn poll(self, revents: u32)
        ensures
            self.callback().answers_poll(revents),
    {
        let mut me = self;
        me.reply.poll(revents);
    }

    /// Reply to a request with the given error code
    pub fn error(self, err: i32)
        ensures
            self.callback().answers_error(err),
    {
        let mut me = self;
        me.reply.error(err);
    }
}

/// Callback container for operations that respond with extended file attributes
pub struct ReplyXattr<C: CallbackXattr> {
    reply: C,
}

impl<C: CallbackXattr> ReplyXattr<C> {
    /// The callback this container answers through.
    pub closed spec fn callback(&self) -> C {
        self.reply
    }

    /// Create a ReplyXattr from the given callback.
    pub fn new(reply: C) -> (r: Self)
        ensures
            r.callback() == reply,
    {
        ReplyXattr { reply }
    }

    /// Answer the request through the callback's `size`.
    pub fn size(self, size: u32)
        ensures
            self.callback().answers_xattr_size(size),
    {
        let mut me = self;
        me.reply.size(size);
    }

    /// Answer the request through the callback's `data`.
    pub fn data(self, data: &[u8])
        ensures
            self.callback().answers_xattr_data(data@),
    {
        let mut me = self;
        me.reply.data(data);
    }

    /// Reply to a request with the given error code
    pub fn error(self, err: i32)
        ensures
            self.callback().answers_error(err),
    {
        let mut me = self;
        me.reply.error(err);
    }
}

/// Callback container for operations that respond with file offsets
pub struct ReplyLseek<C: CallbackLseek> {
    reply: C,
}

impl<C: CallbackLseek> ReplyLseek<C> {
    /// The callback this container answers through.
    pub closed spec fn callback(&self) -> C {
        self.reply
    }

    /// Create a ReplyLseek from the given callback.
    pub fn new(reply: C) -> (r: Self)
        ensures
            r.callback() == reply,
    {
        ReplyLseek { reply }
    }

    /// Answer the request through the callback's `offset`.
    pub fn offset(self, offset: i64)
        ensures
            self.callback().answers_offset(offset),
    {
        let mut me = self;
        me.reply.offset(offset);
    }

    /// Reply to a request with the given error code
    pub fn error(self, err: i32)
        ensures
            self.callback().answers_error(err),
    {
        let mut me = self;
        me.reply.error(err);
    }
}

/* ------ DirentList ------ */

/// Custom callback handler for ReplyDirectory
pub trait CallbackDirectory: CallbackErr {
    /// Adding the entry (`ino`, `offset`, `kind`, `name`) to this callback may leave it
    /// as `after` and report `r`. A callback may say what adding does; by default any
    /// outcome is possible.
    open spec fn added(&self, ino: u64, offset: i64, kind: FileType, name: Seq<u8>, after: &Self, r: bool) -> bool {
        true
    }

    /// Add an entry to the directory reply buffer. Returns true if the buffer is full.
    /// A transparent offset value can be provided for each entry. The kernel uses these
    /// value to request the next entries in further readdir calls
    fn add(&mut self, ino: u64, offset: i64, kind: FileType, name: &[u8]) -> (r: bool)
        ensures
            final(self).replied() == old(self).replied(),
            old(self).added(ino, offset, kind, name@, final(self), r),
    ;

    /// Answering with the listing built so far through this callback does what this
    /// says. A callback may say what it sends; by default anything may be sent.
    open spec fn answers_listing(&self) -> bool {
        true
    }

    /// Reply to a request with the filled directory buffer
    fn ok(&mut self)
        ensures
            final(self).replied(),
            old(self).answers_listing(),
    ;
}

/// Legacy callback handler for ReplyDirectory
pub struct DirectoryHandler<S: ReplySender> {
    buf: Option<EntListBuf>,
    reply: Option<ReplyHandler<S>>,
}

impl<S: ReplySender> DirectoryHandler<S> {
    /// The reply handler the request is answered through, until it is.
    pub closed spec fn handler(&self) -> Option<ReplyHandler<S>> {
        self.reply
    }

    /// The listing built so far, or `None` once it was given up.
    pub closed spec fn listing(&self) -> Option<Seq<u8>> {
        match self.buf {
            Some(b) => Some(b.bytes()),
            None => None,
        }
    }

    /// The size limit of the listing.
    pub closed spec fn limit(&self) -> usize {
        match self.buf {
            Some(b) => b.max_size(),
            None => 0,
        }
    }

    /// A handler answering `reply` with a listing of at most `max_size` bytes.
    pub fn new(max_size: usize, reply: ReplyHandler<S>) -> (r: Self)
        ensures
            r.listing() == Some(Seq::<u8>::empty()),
            r.limit() == max_size,
            !r.replied(),
            r.handler() == Some(reply),
    {
        DirectoryHandler { buf: Some(EntListBuf::new(max_size)), reply: Some(reply) }
    }
}

impl<S: ReplySender> CallbackErr for DirectoryHandler<S> {
    closed spec fn replied(&self) -> bool {
        self.reply is None
    }

    open spec fn answers_error(&self, err: i32) -> bool {
        match self.handler() {
            Some(h) => h.replies(spec_error_field(spec_errno(err)), Seq::empty()),
            None => true,
        }
    }

    fn error(&mut self, err: i32) {
        if let Some(handler) = self.reply.take() {
            handler.error(err);
        }
    }
}

impl<S: ReplySender> CallbackDirectory for DirectoryHandler<S> {
    /// The entry's header and name are pushed onto the listing with `spec_push`. A name
    /// longer than a `u32` can count gives up the listing, as does adding to a listing
    /// already given up: both report a full buffer.
    open spec fn added(&self, ino: u64, offset: i64, kind: FileType, name: Seq<u8>, after: &Self, r: bool) -> bool {
        match self.listing() {
            None => r && after.listing() is None,
            Some(bytes) => if name.len() > u32::MAX {
                r && after.listing() is None
            } else {
                let pushed = spec_push(
                    bytes,
                    self.limit() as int,
                    spec_dirent_head(ino, offset, name.len() as u32, kind),
                    name,
                );
                &&& r == pushed.0
                &&& after.listing() == Some(pushed.1)
                &&& after.limit() == self.limit()
            },
        }
    }

    fn add(&mut self, ino: u64, offset: i64, kind: FileType, name: &[u8]) -> (r: bool) {
        match self.buf.take() {
            Some(mut buf) => {
                if name.len() > u32::MAX as usize {
                    return true;
                }
                let namelen = name.len() as u32;
                let header = FuseDirent { ino, off: offset, namelen, typ: dirent_type(kind) };
                let head = header.to_bytes();
                let res = buf.push(head.as_slice(), name);
                self.buf = Some(buf);
                res
            },
            None => true,
        }
    }

    /// The listing is sent; without a listing (it was given up), the request is
    /// answered with `EIO`.
    open spec fn answers_listing(&self) -> bool {
        match self.handler() {
            Some(h) => match self.listing() {
                Some(bytes) => h.replies(0, bytes),
                None => h.replies(spec_error_field(spec_errno(crate::reply::FALLBACK_ERRNO)), Seq::empty()),
            },
            None => true,
        }
    }

    fn ok(&mut self) {
        if let Some(handler) = self.reply.take() {
            match self.buf.take() {
                Some(buf) => {
                    let bytes = buf.into_bytes();
                    handler.directory(bytes.as_slice());
                },
                None => handler.error(crate::reply::FALLBACK_ERRNO),
            }
        }
    }
}

/// Callback container for operations that respond with directory entries
pub struct ReplyDirectory<C: CallbackDirectory> {
    reply: C,
}

impl<C: CallbackDirectory> ReplyDirectory<C> {
    /// The callback this container answers through.
    pub closed spec fn callback(&self) -> C {
        self.reply
    }

    /// Create a ReplyDirectory from the given callback.
    pub fn new(reply: C) -> (r: Self)
        ensures
            r.callback() == reply,
    {
        ReplyDirectory { reply }
    }

    /// Add an entry to the directory reply buffer. Returns true if the buffer is full.
    /// A transparent offset value can be provided for each entry. The kernel uses these
    /// value to request the next entries in further readdir calls
    #[must_use]
    pub fn add(&mut self, ino: u64, offset: i64, kind: FileType, name: &[u8]) -> (r: bool)
        ensures
            final(self).callback().replied() == old(self).callback().replied(),
            old(self).callback().added(ino, offset, kind, name@, &final(self).callback(), r),
    {
        self.reply.add(ino, offset, kind, name)
    }

    /// Reply to a request with the filled directory buffer
    pub fn ok(&mut self)
        ensures
            final(self).callback().replied(),
            old(self).callback().answers_listing(),
    {
        self.reply.ok();
    }

    /// Reply to a request with the given error code
    pub fn error(self, err: i32)
        ensures
            self.callback().answers_error(err),
    {
        let mut me = self;
        me.reply.error(err);
    }
}

/* ------ DirentPlusList ------ */

/// Custom callback handler for ReplyDirectoryPlus
pub trait CallbackDirectoryPlus: CallbackErr {
    /// Adding the entry (`ino`, `offset`, `name`) for a file with attributes `attr` and
    /// generation `generation` to this callback may leave it as `after` and report `r`.
    /// A callback may say what adding does; by default any outcome is possible.
    open spec fn added_plus(
        &self,
        ino: u64,
        offset: i64,
        name: Seq<u8>,
        ttl: Ttl,
        attr: FileAttr,
        generation: u64,
        after: &Self,
        r: bool,
    ) -> bool {
        true
    }

    /// Add an entry to the directory reply buffer. Returns true if the buffer is full.
    /// A transparent offset value can be provided for each entry. The kernel uses these
    /// value to request the next entries in further readdir calls
    fn add(
        &mut self,
        ino: u64,
        offset: i64,
        name: &[u8],
        ttl: &Ttl,
        attr: &FileAttr,
        generation: u64,
    ) -> (r: bool)
        ensures
            final(self).replied() == old(self).replied(),
            old(self).added_plus(ino, offset, name@, *ttl, *attr, generation, final(self), r),
    ;

    /// Answering with the listing built so far through this callback does what this
    /// says. A callback may say what it sends; by default anything may be sent.
    open spec fn answers_listing_plus(&self) -> bool {
        true
    }

    /// Reply to a request with the filled directory buffer
    fn ok(&mut self)
        ensures
            final(self).replied(),
            old(self).answers_listing_plus(),
    ;
}

/// Legacy callback handler for ReplyDirectoryPlus
pub struct DirectoryPlusHandler<S: ReplySender> {
    buf: Option<EntListBuf>,
    reply: Option<ReplyHandler<S>>,
    attr_ttl_override: bool,
}

impl<S: ReplySender> DirectoryPlusHandler<S> {
    /// The reply handler the request is answered through, until it is.
    pub closed spec fn handler(&self) -> Option<ReplyHandler<S>> {
        self.reply
    }

    /// The listing built so far, or `None` once it was given up.
    pub closed spec fn listing(&self) -> Option<Seq<u8>> {
        match self.buf {
            Some(b) => Some(b.bytes()),
            None => None,
        }
    }

    /// The size limit of the listing.
    pub closed spec fn limit(&self) -> usize {
        match self.buf {
            Some(b) => b.max_size(),
            None => 0,
        }
    }

    /// Whether the entries carry a zero attribute time-to-live.
    pub closed spec fn overrides_attr_ttl(&self) -> bool {
        self.attr_ttl_override
    }

    /// A handler answering `reply` with a listing of at most `max_size` bytes.
    pub fn new(max_size: usize, reply: ReplyHandler<S>) -> (r: Self)
        ensures
            r.listing() == Some(Seq::<u8>::empty()),
            r.limit() == max_size,
            !r.replied(),
            !r.overrides_attr_ttl(),
            r.handler() == Some(reply),
    {
        DirectoryPlusHandler {
            buf: Some(EntListBuf::new(max_size)),
            reply: Some(reply),
            attr_ttl_override: false,
        }
    }

    /// Disable attribute cacheing.
    pub fn attr_ttl_override(&mut self)
        ensures
            final(self).overrides_attr_ttl(),
            final(self).listing() == old(self).listing(),
            final(self).limit() == old(self).limit(),
            final(self).replied() == old(self).replied(),
            final(self).handler() == old(self).handler(),
    {
        self.attr_ttl_override = true;
    }
}

impl<S: ReplySender> CallbackErr for DirectoryPlusHandler<S> {
    closed spec fn replied(&self) -> bool {
        self.reply is None
    }

    open spec fn answers_error(&self, err: i32) -> bool {
        match self.handler() {
            Some(h) => h.replies(spec_error_field(spec_errno(err)), Seq::empty()),
            None => true,
        }
    }

    fn error(&mut self, err: i32) {
        if let Some(handler) = self.reply.take() {
            handler.error(err);
        }
    }
}

impl<S: ReplySender> CallbackDirectoryPlus for DirectoryPlusHandler<S> {
    /// The entry's header, made by `spec_plus_head` from the entry, its time-to-live
    /// and the file's attributes, and its name are pushed onto the listing with `spec_push`. A name
    /// longer than a `u32` can count gives up the listing, as does adding to a listing
    /// already given up: both report a full buffer.
    open spec fn added_plus(
        &self,
        ino: u64,
        offset: i64,
        name: Seq<u8>,
        ttl: Ttl,
        attr: FileAttr,
        generation: u64,
        after: &Self,
        r: bool,
    ) -> bool {
        &&& after.overrides_attr_ttl() == self.overrides_attr_ttl()
        &&& match self.listing() {
            None => r && after.listing() is None,
            Some(bytes) => if name.len() > u32::MAX {
                r && after.listing() is None
            } else {
                exists|h: FuseDirentPlus| {
                    let pushed = spec_push(bytes, self.limit() as int, h.spec_bytes(), name);
                    &&& #[trigger] spec_plus_head(
                        h,
                        ino,
                        offset,
                        name.len() as u32,
                        generation,
                        self.overrides_attr_ttl(),
                        ttl,
                        attr,
                    )
                    &&& r == pushed.0
                    &&& after.listing() == Some(pushed.1)
                    &&& after.limit() == self.limit()
                }
            },
        }
    }

    fn add(
        &mut self,
        ino: u64,
        offset: i64,
        name: &[u8],
        ttl: &Ttl,
        attr: &FileAttr,
        generation: u64,
    ) -> (r: bool)
    {
        match self.buf.take() {
            Some(mut buf) => {
                if name.len() > u32::MAX as usize {
                    return true;
                }
                let namelen = name.len() as u32;
                let fattr = fuse_attr_from_attr(attr);
                let header = FuseDirentPlus {
                    entry_out: entry_out(
                        ino,
                        generation,
                        ttl.secs,
                        ttl.nanos,
                        self.attr_ttl_override,
                        fattr,
                    ),
                    dirent: FuseDirent { ino, off: offset, namelen, typ: dirent_type(attr.kind) },
                };
                assert(spec_plus_head(header, ino, offset, namelen, generation, self.attr_ttl_override, *ttl, *attr));
                let head = header.to_bytes();
                let ghost before = buf.bytes();
                let res = buf.push(head.as_slice(), name);
                self.buf = Some(buf);
                assert(spec_plus_head(
                    header,
                    ino,
                    offset,
                    name@.len() as u32,
                    generation,
                    old(self).overrides_attr_ttl(),
                    *ttl,
                    *attr,
                ));
                assert(before == old(self).listing()->0);
                res
            },
            None => true,
        }
    }

    /// The listing is sent; without a listing (it was given up), the request is
    /// answered with `EIO`.
    open spec fn answers_listing_plus(&self) -> bool {
        match self.handler() {
            Some(h) => match self.listing() {
                Some(bytes) => h.replies(0, bytes),
                None => h.replies(spec_error_field(spec_errno(crate::reply::FALLBACK_ERRNO)), Seq::empty()),
            },
            None => true,
        }
    }

    fn ok(&mut self) {
        if let Some(handler) = self.reply.take() {
            match self.buf.take() {
                Some(buf) => {
                    let bytes = buf.into_bytes();
                    handler.directory(bytes.as_slice());
                },
                None => handler.error(crate::reply::FALLBACK_ERRNO),
            }
        }
    }
}

/// Callback container for operations that respond with directory entries and file information
pub struct ReplyDirectoryPlus<C: CallbackDirectoryPlus> {
    reply: C,
}

impl<C: CallbackDirectoryPlus> ReplyDirectoryPlus<C> {
    /// The callback this container answers through.
    pub closed spec fn callback(&self) -> C {
        self.reply
    }

    /// Create a ReplyDirectoryPlus from the given callback.
    pub fn new(reply: C) -> (r: Self)
        ensures
            r.callback() == reply,
    {
        ReplyDirectoryPlus { reply }
    }

    /// Add an entry to the directory reply buffer. Returns true if the buffer is full.
    /// A transparent offset value can be provided for each entry. The kernel uses these
    /// value to request the next entries in further readdir calls
    pub fn add(
        &mut self,
        ino: u64,
        offset: i64,
        name: &[u8],
        ttl: &Ttl,
        attr: &FileAttr,
        generation: u64,
    ) -> (r: bool)
        ensures
            final(self).callback().replied() == old(self).callback().replied(),
            old(self).callback().added_plus(ino, offset, name@, *ttl, *attr, generation, &final(self).callback(), r),
    {
        self.reply.add(ino, offset, name, ttl, attr, generation)
    }

    /// Reply to a request with the filled directory buffer
    pub fn ok(self)
        ensures
            self.callback().answers_listing_plus(),
    {
        let mut me = self;
        me.reply.ok();
    }

    /// Reply to a request with the given error code
    pub fn error(self, err: i32)
        ensures
            self.callback().answers_error(err),
    {
        let mut me = self;
        me.reply.error(err);
    }
}

} // verus!
