//! Filesystem operation reply
//!
//! A reply handler object is created to guarantee that each fuse request receives a
//! response at most once: every reply method consumes the handler. The handler lays
//! the reply out as the kernel reads it (a `fuse_out_header` followed by the payload
//! of the operation) and hands the message to its sender.

use vstd::prelude::*;

use crate::abi::{
    le_i32, le_i64, le_u32, le_u64, push_bytes, push_i32, push_i64, push_u32, push_u64, FuseAttr,
    FuseDirentPlus, FuseEntryOut, FuseInitOut, FuseOutHeader, OUT_HEADER_SIZE,
};
use crate::byte_box::ByteBox;
use crate::dispatch::Refusal;
use crate::request::{
    law_read_inverts_le_u32, law_read_inverts_le_u64, law_read_u32_at, law_read_u32_in_tail, law_read_u64_at,
    law_read_u64_in_tail, spec_read_u32, spec_read_u64,
};
use crate::dirent::{
    dir_listing, dirplus_listing, spec_dir_items, spec_fill, spec_plus_heads, spec_plus_items, DirEntryData,
    DirEntryPlusData,
};
use crate::data::{fuse_attr_from_attr, spec_fuse_attr, spec_mode, spec_init_out_fields, FileAttr, KernelConfig, KernelConfigView};
use crate::time::{Timestamp, Ttl};

verus! {

/// `std::io::Error`, carried through the library without being looked into.
#[verifier::external_type_specification]
#[verifier::external_body]
pub struct ExIoError(std::io::Error);

/// Generic reply callback to send data
pub trait ReplySender {
    /// `r` is an outcome of handing the message `data` to the kernel through this
    /// sender. A sender may say what its outcomes are; by default any outcome is one.
    open spec fn sent(&self, data: Seq<u8>, r: Result<(), std::io::Error>) -> bool {
        true
    }

    /// Send one complete reply message to the kernel: a message that starts with a
    /// header announcing its total length.
    fn send(&self, data: &[u8]) -> (r: Result<(), std::io::Error>)
        requires
            spec_is_message(data@),
        ensures
            self.sent(data@, r),
    ;
}

/// `m` is one complete message: at least a header long, with the header's length field
/// equal to the message's length.
pub open spec fn spec_is_message(m: Seq<u8>) -> bool {
    m.len() >= OUT_HEADER_SIZE && spec_read_u32(m, 0) == m.len()
}

/* ------ Response data ------ */

/// File attribute response data
#[derive(Debug)]
pub struct Attr {
    /// Describes a file
    pub attr: FileAttr,
    /// Time to live for the attribute
    pub ttl: Ttl,
}

/// File entry response data
#[derive(Debug, Clone, Copy)]
pub struct Entry {
    /// Describes a file
    pub attr: FileAttr,
    /// Time to live for the entry
    pub ttl: Ttl,
    /// The generation of the entry
    pub generation: u64,
}

/// Open file handle response data
#[derive(Debug, Clone, Copy)]
pub struct Open {
    /// File handle for the opened file
    pub fh: u64,
    /// Flags for the opened file
    pub flags: u32,
    /// The backing id the kernel passes I/O through to, if any
    pub backing_id: Option<u32>,
}

/// Xtimes response data
#[derive(Debug)]
pub struct XTimes {
    /// Backup time
    pub bkuptime: Timestamp,
    /// Creation time
    pub crtime: Timestamp,
}

/// Statfs response data
#[derive(Copy, Clone, Debug)]
pub struct Statfs {
    /// Total blocks (in units of frsize)
    pub blocks: u64,
    /// Free blocks
    pub bfree: u64,
    /// Free blocks for unprivileged users
    pub bavail: u64,
    /// Total inodes
    pub files: u64,
    /// Free inodes
    pub ffree: u64,
    /// Filesystem block size
    pub bsize: u32,
    /// Maximum filename length
    pub namelen: u32,
    /// Fundamental file system block size
    pub frsize: u32,
}

/// File lock response data
#[derive(Copy, Clone, Debug)]
pub struct Lock {
    /// start of locked byte range
    pub start: u64,
    /// end of locked byte range
    pub end: u64,
    /// kind of lock (read and/or write)
    pub typ: i32,
    /// PID of process blocking our lock
    pub pid: u32,
}

/// `Xattr` represents the response for extended attribute operations (`getxattr`, `listxattr`).
/// It can either indicate the size of the attribute data or provide the data itself
/// using `ByteBox` for flexible ownership.
#[derive(Debug)]
pub enum Xattr<'a> {
    /// Indicates the size of the extended attribute data. Used when the caller
    /// provides a zero-sized buffer to query the required buffer size.
    Size(u32),
    /// Contains the extended attribute data. `ByteBox` allows this data to be
    /// returned via a zero-copy borrow or an owned allocation.
    Data(ByteBox<'a>),
}

/// File io control reponse data
#[derive(Debug)]
pub struct Ioctl {
    /// Result of the ioctl operation
    pub result: i32,
    /// Data to be returned with the ioctl operation
    pub data: Vec<u8>,
}

/* ------ Messages ------ */

/// The error number sent for an error code that is not a valid errno (zero): `EIO`.
pub const FALLBACK_ERRNO: i32 = 5;

/// The errno an error reply carries for the error code `err`: `err` itself, or `EIO`
/// for 0, which is not an error.
pub open spec fn spec_errno(err: i32) -> i32 {
    if err == 0 { FALLBACK_ERRNO } else { err }
}

/// The header's error field for errno `errno`: its negation (wrapping at the minimum).
pub open spec fn spec_error_field(errno: i32) -> i32 {
    if errno == i32::MIN { errno } else { (-errno) as i32 }
}

/// The complete message for request `unique`: a header carrying the total length and
/// `error`, then `payload`; `None` when the total length does not fit the header's
/// 32-bit length field.
pub open spec fn spec_message(unique: u64, error: i32, payload: Seq<u8>) -> Option<Seq<u8>> {
    if payload.len() + OUT_HEADER_SIZE > u32::MAX {
        None
    } else {
        Some(FuseOutHeader {
            len: (payload.len() + OUT_HEADER_SIZE) as u32,
            error,
            unique,
        }.spec_bytes() + payload)
    }
}

/// Lay out the message answering request `unique`.
pub fn message(unique: u64, error: i32, payload: &[u8]) -> (r: Option<Vec<u8>>)
    ensures
        r matches Some(m) ==> spec_message(unique, error, payload@) == Some(m@),
        r is None <==> spec_message(unique, error, payload@) is None,
{
    if payload.len() > 4294967279 {
        return None;
    }
    let header = FuseOutHeader { len: (payload.len() + OUT_HEADER_SIZE) as u32, error, unique };
    let mut out: Vec<u8> = Vec::new();
    header.encode_into(&mut out);
    push_bytes(&mut out, payload);
    assert(out@ =~= header.spec_bytes() + payload@);
    Some(out)
}

/// The payload of an attribute reply (`fuse_attr_out`).
pub open spec fn spec_attr_out(valid_secs: u64, valid_nsec: u32, attr: FuseAttr) -> Seq<u8> {
    le_u64(valid_secs) + le_u32(valid_nsec) + le_u32(0) + attr.spec_bytes()
}

/// The payload of an attribute reply with time-to-live `ttl`, forced to zero under
/// `override_attr`.
pub open spec fn spec_attr_reply(override_attr: bool, ttl: (u64, u32), attr: FuseAttr) -> Seq<u8> {
    spec_attr_out(
        if override_attr { 0 } else { ttl.0 },
        if override_attr { 0 } else { ttl.1 },
        attr,
    )
}

/// The payload of an open reply (`fuse_open_out`): the backing id field is 0 when
/// there is none.
pub open spec fn spec_open_out(open: Open) -> Seq<u8> {
    le_u64(open.fh) + le_u32(open.flags) + le_u32(
        match open.backing_id {
            Some(id) => id,
            None => 0,
        },
    )
}

/// The payload of a statfs reply (`fuse_statfs_out`).
pub open spec fn spec_statfs_out(s: Statfs) -> Seq<u8> {
    le_u64(s.blocks) + le_u64(s.bfree) + le_u64(s.bavail) + le_u64(s.files) + le_u64(s.ffree)
        + le_u32(s.bsize) + le_u32(s.namelen) + le_u32(s.frsize) + le_u32(0) + Seq::new(
        24,
        |i: int| 0u8,
    )
}

/// The payload of a lock reply (`fuse_lk_out`).
pub open spec fn spec_lock_out(l: Lock) -> Seq<u8> {
    le_u64(l.start) + le_u64(l.end) + le_i32(l.typ) + le_u32(l.pid)
}

/// The payload of an ioctl reply: `fuse_ioctl_out` followed by the data.
pub open spec fn spec_ioctl_out(result: i32, data: Seq<u8>) -> Seq<u8> {
    le_i32(result) + le_u32(0) + le_u32(0) + le_u32(0) + data
}

/// The payload of a reply that carries one 32-bit value and 32 bits of padding
/// (`fuse_write_out`, `fuse_poll_out`, `fuse_getxattr_out`).
pub open spec fn spec_u32_out(value: u32) -> Seq<u8> {
    le_u32(value) + le_u32(0)
}

/// Append `n` zero bytes.
fn push_zeros(out: &mut Vec<u8>, n: usize)
    ensures
        final(out)@ == old(out)@ + Seq::new(n as nat, |i: int| 0u8),
{
    let mut i: usize = 0;
    while i < n
        invariant
            i <= n,
            out@ == old(out)@ + Seq::new(i as nat, |k: int| 0u8),
        decreases n - i,
    {
        out.push(0u8);
        i = i + 1;
        assert(out@ =~= old(out)@ + Seq::new(i as nat, |k: int| 0u8));
    }
}

/// The entry structure of an entry reply: the entry and attribute validity are the
/// time-to-live `(secs, nsec)`, the attribute validity forced to zero under `override_attr`.
pub open spec fn spec_entry_out(
    ino: u64,
    generation: u64,
    ttl: (u64, u32),
    override_attr: bool,
    attr: FuseAttr,
) -> FuseEntryOut {
    FuseEntryOut {
        nodeid: ino,
        generation,
        entry_valid: ttl.0,
        attr_valid: if override_attr { 0 } else { ttl.0 },
        entry_valid_nsec: ttl.1,
        attr_valid_nsec: if override_attr { 0 } else { ttl.1 },
        attr,
    }
}

/// Build the entry structure of an entry reply.
pub fn entry_out(ino: u64, generation: u64, secs: u64, nsec: u32, override_attr: bool, attr: FuseAttr) -> (r: FuseEntryOut)
    ensures
        r == spec_entry_out(ino, generation, (secs, nsec), override_attr, attr),
{
    FuseEntryOut {
        nodeid: ino,
        generation,
        entry_valid: secs,
        attr_valid: if override_attr { 0 } else { secs },
        entry_valid_nsec: nsec,
        attr_valid_nsec: if override_attr { 0 } else { nsec },
        attr,
    }
}

/// The error field of the header answering with error code `err`.
pub fn error_field(err: i32) -> (r: i32)
    ensures
        r == spec_error_field(spec_errno(err)),
{
    let errno = if err == 0 { FALLBACK_ERRNO } else { err };
    if errno == i32::MIN { errno } else { -errno }
}

/// The payload of the init reply: the configuration's answer to a kernel with
/// `capabilities`. The page size in it is the system's.
pub fn init_payload(config: KernelConfig, capabilities: u64) -> (r: Vec<u8>)
    ensures
        exists|init: FuseInitOut, page_size: usize|
            spec_init_out_fields(init, config@, capabilities & config@.requested, page_size)
            && r@ == init.spec_bytes(),
{
    let ghost view = config@;
    let init = config.init_reply(capabilities);
    let mut payload: Vec<u8> = Vec::new();
    init.encode_into(&mut payload);
    assert(payload@ =~= init.spec_bytes());
    payload
}

/// The entry structure of the entry reply for `entry`, the attribute time-to-live
/// zero under `override_attr`.
pub open spec fn spec_entry_of(entry: Entry, override_attr: bool) -> FuseEntryOut {
    spec_entry_out(
        entry.attr.ino,
        entry.generation,
        (entry.ttl.secs, entry.ttl.nanos),
        override_attr,
        spec_fuse_attr(entry.attr),
    )
}

/// The payload of an entry reply.
pub fn entry_payload(entry: &Entry, override_attr: bool) -> (r: Vec<u8>)
    ensures
        r@ == spec_entry_of(*entry, override_attr).spec_bytes(),
{
    let attr = fuse_attr_from_attr(&entry.attr);
    let out = entry_out(entry.attr.ino, entry.generation, entry.ttl.secs, entry.ttl.nanos, override_attr, attr);
    let mut payload: Vec<u8> = Vec::new();
    out.encode_into(&mut payload);
    assert(payload@ =~= out.spec_bytes());
    payload
}

/// The payload of the attribute reply for `attr`, its validity zero under
/// `override_attr`.
pub open spec fn spec_attr_of(attr: Attr, override_attr: bool) -> Seq<u8> {
    spec_attr_reply(override_attr, (attr.ttl.secs, attr.ttl.nanos), spec_fuse_attr(attr.attr))
}

/// The payload of an attribute reply; under `override_attr` the validity is zero.
pub fn attr_payload(attr: &Attr, override_attr: bool) -> (r: Vec<u8>)
    ensures
        r@ == spec_attr_of(*attr, override_attr),
{
    let fattr = fuse_attr_from_attr(&attr.attr);
    let secs = attr.ttl.secs;
    let nsec = attr.ttl.nanos;
    let mut payload: Vec<u8> = Vec::new();
    push_u64(&mut payload, if override_attr { 0 } else { secs });
    push_u32(&mut payload, if override_attr { 0 } else { nsec });
    push_u32(&mut payload, 0);
    fattr.encode_into(&mut payload);
    assert(payload@ =~= spec_attr_out(
        if override_attr { 0 } else { secs },
        if override_attr { 0 } else { nsec },
        fattr,
    ));
    payload
}

/// The payload of an open reply.
pub fn open_payload(open: &Open) -> (r: Vec<u8>)
    ensures
        r@ == spec_open_out(*open),
{
    let mut payload: Vec<u8> = Vec::new();
    push_u64(&mut payload, open.fh);
    push_u32(&mut payload, open.flags);
    let backing: u32 = match open.backing_id {
        Some(id) => id,
        None => 0,
    };
    push_u32(&mut payload, backing);
    assert(payload@ =~= spec_open_out(*open));
    payload
}

/// The payload of a create reply: the entry, then the open file handle.
pub fn created_payload(entry: &Entry, open: &Open, override_attr: bool) -> (r: Vec<u8>)
    ensures
        r@ == spec_entry_of(*entry, override_attr).spec_bytes() + spec_open_out(*open),
{
    let mut payload = entry_payload(entry, override_attr);
    let tail = open_payload(open);
    push_bytes(&mut payload, tail.as_slice());
    payload
}

/// The payload of a reply carrying one 32-bit value: written size, poll events or
/// extended attribute size.
pub fn u32_payload(value: u32) -> (r: Vec<u8>)
    ensures
        r@ == spec_u32_out(value),
{
    let mut payload: Vec<u8> = Vec::new();
    push_u32(&mut payload, value);
    push_u32(&mut payload, 0);
    assert(payload@ =~= spec_u32_out(value));
    payload
}

/// The payload of a statfs reply.
pub fn statfs_payload(statfs: &Statfs) -> (r: Vec<u8>)
    ensures
        r@ == spec_statfs_out(*statfs),
{
    let mut payload: Vec<u8> = Vec::new();
    push_u64(&mut payload, statfs.blocks);
    push_u64(&mut payload, statfs.bfree);
    push_u64(&mut payload, statfs.bavail);
    push_u64(&mut payload, statfs.files);
    push_u64(&mut payload, statfs.ffree);
    push_u32(&mut payload, statfs.bsize);
    push_u32(&mut payload, statfs.namelen);
    push_u32(&mut payload, statfs.frsize);
    push_u32(&mut payload, 0);
    push_zeros(&mut payload, 24);
    assert(payload@ =~= spec_statfs_out(*statfs));
    payload
}

/// The payload of a lock reply.
pub fn lock_payload(lock: &Lock) -> (r: Vec<u8>)
    ensures
        r@ == spec_lock_out(*lock),
{
    let mut payload: Vec<u8> = Vec::new();
    push_u64(&mut payload, lock.start);
    push_u64(&mut payload, lock.end);
    push_i32(&mut payload, lock.typ);
    push_u32(&mut payload, lock.pid);
    assert(payload@ =~= spec_lock_out(*lock));
    payload
}

/// The payload of a bmap reply.
pub fn bmap_payload(block: u64) -> (r: Vec<u8>)
    ensures
        r@ == le_u64(block),
{
    let mut payload: Vec<u8> = Vec::new();
    push_u64(&mut payload, block);
    assert(payload@ =~= le_u64(block));
    payload
}

/// The payload of an lseek reply.
pub fn offset_payload(offset: i64) -> (r: Vec<u8>)
    ensures
        r@ == le_i64(offset),
{
    let mut payload: Vec<u8> = Vec::new();
    push_i64(&mut payload, offset);
    assert(payload@ =~= le_i64(offset));
    payload
}

/// The payload of an xtimes reply (`fuse_getxtimes_out`), given the backup and
/// creation times as seconds and nanoseconds.
pub open spec fn spec_xtimes_out(bkuptime: (i64, u32), crtime: (i64, u32)) -> Seq<u8> {
    le_u64(bkuptime.0 as u64) + le_u64(crtime.0 as u64) + le_u32(bkuptime.1) + le_u32(crtime.1)
}

/// The payload of an xtimes reply.
pub fn xtimes_payload(xtimes: &XTimes) -> (r: Vec<u8>)
    ensures
        r@ == spec_xtimes_out((xtimes.bkuptime.secs, xtimes.bkuptime.nanos), (xtimes.crtime.secs, xtimes.crtime.nanos)),
{
    let mut payload: Vec<u8> = Vec::new();
    push_u64(&mut payload, xtimes.bkuptime.secs as u64);
    push_u64(&mut payload, xtimes.crtime.secs as u64);
    push_u32(&mut payload, xtimes.bkuptime.nanos);
    push_u32(&mut payload, xtimes.crtime.nanos);
    assert(payload@ =~= spec_xtimes_out((xtimes.bkuptime.secs, xtimes.bkuptime.nanos), (xtimes.crtime.secs, xtimes.crtime.nanos)));
    payload
}

/// The payload of an ioctl reply.
pub fn ioctl_payload(ioctl: &Ioctl) -> (r: Vec<u8>)
    ensures
        r@ == spec_ioctl_out(ioctl.result, ioctl.data@),
{
    let mut payload: Vec<u8> = Vec::new();
    push_i32(&mut payload, ioctl.result);
    push_u32(&mut payload, 0);
    push_u32(&mut payload, 0);
    push_u32(&mut payload, 0);
    push_bytes(&mut payload, ioctl.data.as_slice());
    assert(payload@ =~= spec_ioctl_out(ioctl.result, ioctl.data@));
    payload
}

/// ReplyHander is a struct which holds the unique identifiers needed to reply
/// to a specific request. Its reply methods consume it, so that ownership of the
/// struct determines whether the identifiers have ever been used.
/// This guarantees that a reply is sent at most once per request.
///
/// Each reply method lays out its message with the payload functions above and
/// `message`, and hands it to the sender; what the sender does with it is its own.
#[derive(Debug)]
pub struct ReplyHandler<S: ReplySender> {
    /// Unique id of the request to reply to
    unique: u64,
    /// Closure to call for sending the reply
    sender: S,
    /// Whether attribute caching is disabled in the replies
    attr_ttl_override: bool,
}

impl<S: ReplySender> ReplyHandler<S> {
    /// Create a reply handler for a specific request identifier
    pub fn new(unique: u64, sender: S) -> (r: ReplyHandler<S>)
        ensures
            r.unique() == unique,
            !r.overrides_attr_ttl(),
    {
        ReplyHandler { unique, sender, attr_ttl_override: false }
    }

    /// The identifier of the request this handler answers.
    pub closed spec fn unique(&self) -> u64 {
        self.unique
    }

    /// The sender this handler replies through.
    pub closed spec fn sender(&self) -> S {
        self.sender
    }

    /// The handler answered its request with `error` and `payload`: the message made
    /// of them (`spec_message`) was handed to its sender. A message too long for its
    /// length field is not sent.
    pub open spec fn replies(&self, error: i32, payload: Seq<u8>) -> bool {
        match spec_message(self.unique(), error, payload) {
            Some(m) => exists|r: Result<(), std::io::Error>|
                #![trigger self.sender().sent(m, r)]
                self.sender().sent(m, r),
            None => true,
        }
    }

    /// The handler answered with the entry reply for `entry`: the entry structure,
    /// the attribute time-to-live zero when the handler overrides it.
    pub open spec fn replies_entry(&self, entry: Entry) -> bool {
        self.replies(0, spec_entry_of(entry, self.overrides_attr_ttl()).spec_bytes())
    }

    /// The handler answered with the attribute reply for `attr`, its validity zero
    /// when the handler overrides it.
    pub open spec fn replies_attr(&self, attr: Attr) -> bool {
        self.replies(0, spec_attr_of(attr, self.overrides_attr_ttl()))
    }

    /// The handler answered with the create reply for `entry` and `open`: the entry as
    /// `replies_entry` sends it, then the open file handle.
    pub open spec fn replies_created(&self, entry: Entry, open: Open) -> bool {
        self.replies(0, spec_entry_of(entry, self.overrides_attr_ttl()).spec_bytes() + spec_open_out(open))
    }

    /// The handler answered an init request from a kernel with `capabilities` with the
    /// configuration `config`: its limits, and as flags the capabilities both offered
    /// by the kernel and requested. The page size in it is the system's.
    pub open spec fn replies_config(&self, capabilities: u64, config: KernelConfigView) -> bool {
        exists|init: FuseInitOut, page_size: usize|
            #![trigger spec_init_out_fields(init, config, capabilities & config.requested, page_size)]
            spec_init_out_fields(init, config, capabilities & config.requested, page_size)
            && self.replies(0, init.spec_bytes())
    }

    /// The handler answered with the xtimes reply for `xtimes`.
    pub open spec fn replies_xtimes(&self, xtimes: XTimes) -> bool {
        self.replies(0, spec_xtimes_out(
            (xtimes.bkuptime.secs, xtimes.bkuptime.nanos),
            (xtimes.crtime.secs, xtimes.crtime.nanos),
        ))
    }

    /// Whether the attribute time-to-live in replies is forced to zero.
    pub closed spec fn overrides_attr_ttl(&self) -> bool {
        self.attr_ttl_override
    }

    /// Disable attribute caching: replies carrying attributes get a zero time-to-live.
    pub fn attr_ttl_override(&mut self)
        ensures
            final(self).overrides_attr_ttl(),
            final(self).unique() == old(self).unique(),
            final(self).sender() == old(self).sender(),
    {
        self.attr_ttl_override = true;
    }

    /// The message this handler sends for `error` and `payload`: the reply to its
    /// request; `None` when it is too long for its length field.
    pub fn message_for(&self, error: i32, payload: &[u8]) -> (r: Option<Vec<u8>>)
        ensures
            r matches Some(m) ==> spec_message(self.unique(), error, payload@) == Some(m@),
            r is None <==> spec_message(self.unique(), error, payload@) is None,
    {
        message(self.unique, error, payload)
    }

    /// Send a message with `error` and `payload`; a message too long for its length
    /// field is not sent.
    fn send_ll(self, error: i32, payload: &[u8])
        ensures
            self.replies(error, payload@),
    {
        match self.message_for(error, payload) {
            Some(m) => {
                proof {
                    law_message_announces_length_and_request(self.unique, error, payload@);
                }
                let r = self.sender.send(m.as_slice());
                assert(self.sender().sent(m@, r));
            },
            None => {},
        }
    }

    /// Drop the handler without replying: some operations take no reply.
    pub fn disable(self) {
    }

    /// Reply to a general request with Ok
    pub fn ok(self)
        ensures
            self.replies(0, Seq::empty()),
    {
        let payload: Vec<u8> = Vec::new();
        self.send_ll(0, payload.as_slice());
    }

    /// Reply to a general request with an error code (0 is sent as `EIO`)
    pub fn error(self, err: i32)
        ensures
            self.replies(spec_error_field(spec_errno(err)), Seq::empty()),
    {
        let payload: Vec<u8> = Vec::new();
        self.send_ll(error_field(err), payload.as_slice());
    }

    /// Reply to a general request with data
    pub fn data(self, data: &[u8])
        ensures
            self.replies(0, data@),
    {
        self.send_ll(0, data);
    }

    /// Reply to an init request with available features: the configuration's limits,
    /// and as flags the capabilities both offered by the kernel and requested. The page
    /// size in it is the system's.
    pub fn config(self, capabilities: u64, config: KernelConfig)
        ensures
            self.replies_config(capabilities, config@),
    {
        let ghost view = config@;
        let payload = init_payload(config, capabilities);
        let ghost me = self;
        self.send_ll(0, payload.as_slice());
        proof {
            let (init, page_size) = choose|init: FuseInitOut, page_size: usize|
                spec_init_out_fields(init, view, capabilities & view.requested, page_size)
                && payload@ == init.spec_bytes();
            assert(spec_init_out_fields(init, view, capabilities & view.requested, page_size)
                && me.replies(0, init.spec_bytes()));
        }
    }

    /// Reply to a request with a file entry; its attribute time-to-live is zero when
    /// the handler overrides it.
    pub fn entry(self, entry: Entry)
        ensures
            self.replies_entry(entry),
    {
        let payload = entry_payload(&entry, self.attr_ttl_override);
        self.send_ll(0, payload.as_slice());
    }

    /// Reply to a request with a file attributes; the time-to-live is zero when the
    /// handler overrides it.
    pub fn attr(self, attr: Attr)
        ensures
            self.replies_attr(attr),
    {
        let payload = attr_payload(&attr, self.attr_ttl_override);
        self.send_ll(0, payload.as_slice());
    }

    /// Reply to a request with xtimes attributes.
    pub fn xtimes(self, xtimes: XTimes)
        ensures
            self.replies_xtimes(xtimes),
    {
        let payload = xtimes_payload(&xtimes);
        self.send_ll(0, payload.as_slice());
    }

    /// Reply to a request with a newly opened file handle
    pub fn opened(self, open: Open)
        ensures
            self.replies(0, spec_open_out(open)),
    {
        let payload = open_payload(&open);
        self.send_ll(0, payload.as_slice());
    }

    /// Reply to a request with the number of bytes written
    pub fn written(self, size: u32)
        ensures
            self.replies(0, spec_u32_out(size)),
    {
        let payload = u32_payload(size);
        self.send_ll(0, payload.as_slice());
    }

    /// Reply to a statfs request
    pub fn statfs(self, statfs: Statfs)
        ensures
            self.replies(0, spec_statfs_out(statfs)),
    {
        let payload = statfs_payload(&statfs);
        self.send_ll(0, payload.as_slice());
    }

    /// Reply to a request with a newly created file entry and its newly open file
    /// handle; the entry as `entry` sends it.
    pub fn created(self, entry: Entry, open: Open)
        ensures
            self.replies_created(entry, open),
    {
        let payload = created_payload(&entry, &open, self.attr_ttl_override);
        self.send_ll(0, payload.as_slice());
    }

    /// Reply to a request with a file lock
    pub fn locked(self, lock: Lock)
        ensures
            self.replies(0, spec_lock_out(lock)),
    {
        let payload = lock_payload(&lock);
        self.send_ll(0, payload.as_slice());
    }

    /// Reply to a request with a bmap
    pub fn bmap(self, block: u64)
        ensures
            self.replies(0, le_u64(block)),
    {
        let payload = bmap_payload(block);
        self.send_ll(0, payload.as_slice());
    }

    /// Reply to a request with an ioctl
    pub fn ioctl(self, ioctl: Ioctl)
        ensures
            self.replies(0, spec_ioctl_out(ioctl.result, ioctl.data@)),
    {
        let payload = ioctl_payload(&ioctl);
        self.send_ll(0, payload.as_slice());
    }

    /// Reply to a request with a poll result
    pub fn poll(self, revents: u32)
        ensures
            self.replies(0, spec_u32_out(revents)),
    {
        let payload = u32_payload(revents);
        self.send_ll(0, payload.as_slice());
    }

    /// Reply to a request with extended attributes.
    pub fn xattr(self, reply: Xattr<'_>)
        ensures
            match reply {
                Xattr::Size(size) => self.replies(0, spec_u32_out(size)),
                Xattr::Data(data) => self.replies(0, data@),
            },
    {
        match reply {
            Xattr::Size(s) => self.xattr_size(s),
            Xattr::Data(d) => self.xattr_data(d),
        }
    }

    /// Reply to a request with the size of an xattr result.
    pub fn xattr_size(self, size: u32)
        ensures
            self.replies(0, spec_u32_out(size)),
    {
        let payload = u32_payload(size);
        self.send_ll(0, payload.as_slice());
    }

    /// Reply to a request with the data in an xattr result.
    pub fn xattr_data(self, data: ByteBox<'_>)
        ensures
            self.replies(0, data@),
    {
        self.send_ll(0, data.as_ref());
    }

    /// Reply to a request with a seeked offset
    pub fn offset(self, offset: i64)
        ensures
            self.replies(0, le_i64(offset)),
    {
        let payload = offset_payload(offset);
        self.send_ll(0, payload.as_slice());
    }

    /// Reply to a directory listing request with the filled buffer.
    pub fn directory(self, listing: &[u8])
        ensures
            self.replies(0, listing@),
    {
        self.send_ll(0, listing);
    }

    /// Reply to a directory listing request with the listing of at most `size` bytes
    /// that `dir_listing` makes of `entries_list`: the entries in order, up to the
    /// first that does not fit.
    pub fn dir(self, entries_list: &[DirEntryData], size: usize)
        ensures
            self.replies(0, spec_fill(Seq::empty(), size as int, spec_dir_items(entries_list@))),
    {
        let listing = dir_listing(entries_list, size);
        self.directory(listing.as_slice());
    }

    /// Reply to a directory-plus listing request with the listing of at most `size`
    /// bytes that `dirplus_listing` makes of `entries_plus_list`.
    pub fn dirplus(self, entries_plus_list: &[DirEntryPlusData], size: usize)
        ensures
            exists|heads: Seq<FuseDirentPlus>| #![trigger spec_plus_heads(entries_plus_list@, heads)]
                spec_plus_heads(entries_plus_list@, heads)
                && self.replies(0, spec_fill(Seq::empty(), size as int, spec_plus_items(entries_plus_list@, heads))),
    {
        let listing = dirplus_listing(entries_plus_list, size);
        let ghost me = self;
        self.directory(listing.as_slice());
        proof {
            let heads = choose|heads: Seq<FuseDirentPlus>| #[trigger] spec_plus_heads(entries_plus_list@, heads)
                && listing@ == spec_fill(Seq::empty(), size as int, spec_plus_items(entries_plus_list@, heads));
            assert(spec_plus_heads(entries_plus_list@, heads) && me.replies(0, listing@));
        }
    }
}

/// Every message announces its own length and the request it answers: reading the
/// header back gives the total length and the unique id it was built with.
pub proof fn law_message_announces_length_and_request(unique: u64, error: i32, payload: Seq<u8>)
    requires
        spec_message(unique, error, payload) is Some,
    ensures
        ({
            let m = spec_message(unique, error, payload)->0;
            &&& spec_read_u32(m, 0) == m.len()
            &&& spec_read_u64(m, 8) == unique
            &&& m.subrange(OUT_HEADER_SIZE as int, m.len() as int) == payload
        }),
{
    let len = (payload.len() + OUT_HEADER_SIZE) as u32;
    let h = FuseOutHeader { len, error, unique };
    let m = h.spec_bytes() + payload;
    assert(m.subrange(0, 4) =~= le_u32(len));
    assert(m.subrange(8, 16) =~= le_u64(unique));
    assert(m.subrange(OUT_HEADER_SIZE as int, m.len() as int) =~= payload);
    law_read_inverts_le_u32(len);
    law_read_inverts_le_u64(unique);
    assert(spec_read_u32(m, 0) == spec_read_u32(le_u32(len), 0));
    assert(spec_read_u64(m, 8) == spec_read_u64(le_u64(unique), 0)) by {
        assert(spec_read_u32(m, 8) == spec_read_u32(le_u64(unique), 0));
        assert(spec_read_u32(m, 12) == spec_read_u32(le_u64(unique), 4));
    }
}

/// A refused request is answered with a bare header carrying the negated error number
/// of the refusal.
pub proof fn law_refusal_answer(unique: u64, refusal: Refusal)
    ensures
        spec_message(unique, spec_error_field(spec_errno(refusal.spec_errno())), Seq::empty())
            == Some(FuseOutHeader { len: OUT_HEADER_SIZE as u32, error: (-refusal.spec_errno()) as i32, unique }.spec_bytes()),
{
    assert(FuseOutHeader { len: OUT_HEADER_SIZE as u32, error: (-refusal.spec_errno()) as i32, unique }.spec_bytes()
        + Seq::<u8>::empty() =~= FuseOutHeader { len: OUT_HEADER_SIZE as u32, error: (-refusal.spec_errno()) as i32, unique }.spec_bytes());
}


/// The kernel's attribute record carries each field of the attributes in its own
/// place: inode, size and blocks, then the seconds of the access, modification and
/// change times, then their nanoseconds, then mode, link count, owner, group, device
/// and block size, each little-endian.
pub proof fn law_attr_record_layout(a: FuseAttr)
    ensures
        ({
            let b = a.spec_bytes();
            &&& b.len() == 88
            &&& spec_read_u64(b, 0) == a.ino
            &&& spec_read_u64(b, 8) == a.size
            &&& spec_read_u64(b, 16) == a.blocks
            &&& spec_read_u64(b, 24) == a.atime as u64
            &&& spec_read_u64(b, 32) == a.mtime as u64
            &&& spec_read_u64(b, 40) == a.ctime as u64
            &&& spec_read_u32(b, 48) == a.atimensec
            &&& spec_read_u32(b, 52) == a.mtimensec
            &&& spec_read_u32(b, 56) == a.ctimensec
            &&& spec_read_u32(b, 60) == a.mode
            &&& spec_read_u32(b, 64) == a.nlink
            &&& spec_read_u32(b, 68) == a.uid
            &&& spec_read_u32(b, 72) == a.gid
            &&& spec_read_u32(b, 76) == a.rdev
            &&& spec_read_u32(b, 80) == a.blksize
        }),
{
    let b = a.spec_bytes();
    assert(b.subrange(0, 8) =~= le_u64(a.ino));
    law_read_u64_at(b, 0, a.ino);
    assert(b.subrange(8, 16) =~= le_u64(a.size));
    law_read_u64_at(b, 8, a.size);
    assert(b.subrange(16, 24) =~= le_u64(a.blocks));
    law_read_u64_at(b, 16, a.blocks);
    assert(b.subrange(24, 32) =~= le_u64(a.atime as u64));
    law_read_u64_at(b, 24, a.atime as u64);
    assert(b.subrange(32, 40) =~= le_u64(a.mtime as u64));
    law_read_u64_at(b, 32, a.mtime as u64);
    assert(b.subrange(40, 48) =~= le_u64(a.ctime as u64));
    law_read_u64_at(b, 40, a.ctime as u64);
    assert(b.subrange(48, 52) =~= le_u32(a.atimensec));
    law_read_u32_at(b, 48, a.atimensec);
    assert(b.subrange(52, 56) =~= le_u32(a.mtimensec));
    law_read_u32_at(b, 52, a.mtimensec);
    assert(b.subrange(56, 60) =~= le_u32(a.ctimensec));
    law_read_u32_at(b, 56, a.ctimensec);
    assert(b.subrange(60, 64) =~= le_u32(a.mode));
    law_read_u32_at(b, 60, a.mode);
    assert(b.subrange(64, 68) =~= le_u32(a.nlink));
    law_read_u32_at(b, 64, a.nlink);
    assert(b.subrange(68, 72) =~= le_u32(a.uid));
    law_read_u32_at(b, 68, a.uid);
    assert(b.subrange(72, 76) =~= le_u32(a.gid));
    law_read_u32_at(b, 72, a.gid);
    assert(b.subrange(76, 80) =~= le_u32(a.rdev));
    law_read_u32_at(b, 76, a.rdev);
    assert(b.subrange(80, 84) =~= le_u32(a.blksize));
    law_read_u32_at(b, 80, a.blksize);
}

/// The kernel's attribute record of `attr` holds each of its fields in the matching
/// field: the seconds and nanoseconds of each time in that time's fields, and the
/// inode, size, blocks, link count, owner, group, device and block size as they are.
pub proof fn law_kernel_attr_keeps_each_field(attr: FileAttr)
    ensures
        ({
            let k = spec_fuse_attr(attr);
            &&& k.ino == attr.ino && k.size == attr.size && k.blocks == attr.blocks
            &&& k.atime == attr.atime.secs && k.atimensec == attr.atime.nanos
            &&& k.mtime == attr.mtime.secs && k.mtimensec == attr.mtime.nanos
            &&& k.ctime == attr.ctime.secs && k.ctimensec == attr.ctime.nanos
            &&& k.mode == spec_mode(attr.kind, attr.perm)
            &&& k.nlink == attr.nlink && k.uid == attr.uid && k.gid == attr.gid
            &&& k.rdev == attr.rdev && k.blksize == attr.blksize
        }),
{
}

/// An attribute reply lays out, after the validity (zero under the override) and
/// padding, each field of the attributes at its own offset: the modification time
/// at 48, the change time at 56, their nanoseconds at 68 and 72, and so on.
pub proof fn law_attr_reply_layout(attr: Attr, override_attr: bool)
    ensures
        ({
            let p = spec_attr_of(attr, override_attr);
            let f = attr.attr;
            &&& p.len() == 104
            &&& spec_read_u64(p, 0) == if override_attr { 0 } else { attr.ttl.secs }
            &&& spec_read_u32(p, 8) == if override_attr { 0 } else { attr.ttl.nanos }
            &&& spec_read_u64(p, 16) == f.ino
            &&& spec_read_u64(p, 24) == f.size
            &&& spec_read_u64(p, 32) == f.blocks
            &&& spec_read_u64(p, 40) == f.atime.secs as u64
            &&& spec_read_u64(p, 48) == f.mtime.secs as u64
            &&& spec_read_u64(p, 56) == f.ctime.secs as u64
            &&& spec_read_u32(p, 64) == f.atime.nanos
            &&& spec_read_u32(p, 68) == f.mtime.nanos
            &&& spec_read_u32(p, 72) == f.ctime.nanos
            &&& spec_read_u32(p, 76) == spec_mode(f.kind, f.perm)
            &&& spec_read_u32(p, 80) == f.nlink
            &&& spec_read_u32(p, 84) == f.uid
            &&& spec_read_u32(p, 88) == f.gid
            &&& spec_read_u32(p, 92) == f.rdev
            &&& spec_read_u32(p, 96) == f.blksize
        }),
{
    let a = spec_fuse_attr(attr.attr);
    let v = if override_attr { 0u64 } else { attr.ttl.secs };
    let n = if override_attr { 0u32 } else { attr.ttl.nanos };
    let pre = le_u64(v) + le_u32(n) + le_u32(0);
    let b = a.spec_bytes();
    let p = spec_attr_of(attr, override_attr);
    assert(p =~= pre + b);
    assert(p.subrange(0, 8) =~= le_u64(v));
    law_read_u64_at(p, 0, v);
    assert(p.subrange(8, 12) =~= le_u32(n));
    law_read_u32_at(p, 8, n);
    law_attr_record_layout(a);
    assert(pre.len() == 16);
    law_read_u64_in_tail(pre, b, 0);
    law_read_u64_in_tail(pre, b, 8);
    law_read_u64_in_tail(pre, b, 16);
    law_read_u64_in_tail(pre, b, 24);
    law_read_u64_in_tail(pre, b, 32);
    law_read_u64_in_tail(pre, b, 40);
    law_read_u32_in_tail(pre, b, 48);
    law_read_u32_in_tail(pre, b, 52);
    law_read_u32_in_tail(pre, b, 56);
    law_read_u32_in_tail(pre, b, 60);
    law_read_u32_in_tail(pre, b, 64);
    law_read_u32_in_tail(pre, b, 68);
    law_read_u32_in_tail(pre, b, 72);
    law_read_u32_in_tail(pre, b, 76);
    law_read_u32_in_tail(pre, b, 80);
}

/// An entry reply lays out the inode and generation, the entry and attribute
/// validity seconds (the latter zero under the override), their nanoseconds, and then
/// the attribute record of the entry, each field at its own offset.
pub proof fn law_entry_reply_layout(entry: Entry, override_attr: bool)
    ensures
        ({
            let p = spec_entry_of(entry, override_attr).spec_bytes();
            let f = entry.attr;
            &&& p.len() == 128
            &&& spec_read_u64(p, 0) == f.ino
            &&& spec_read_u64(p, 8) == entry.generation
            &&& spec_read_u64(p, 16) == entry.ttl.secs
            &&& spec_read_u64(p, 24) == if override_attr { 0 } else { entry.ttl.secs }
            &&& spec_read_u32(p, 32) == entry.ttl.nanos
            &&& spec_read_u32(p, 36) == if override_attr { 0 } else { entry.ttl.nanos }
            &&& spec_read_u64(p, 40) == f.ino
            &&& spec_read_u64(p, 48) == f.size
            &&& spec_read_u64(p, 56) == f.blocks
            &&& spec_read_u64(p, 64) == f.atime.secs as u64
            &&& spec_read_u64(p, 72) == f.mtime.secs as u64
            &&& spec_read_u64(p, 80) == f.ctime.secs as u64
            &&& spec_read_u32(p, 88) == f.atime.nanos
            &&& spec_read_u32(p, 92) == f.mtime.nanos
            &&& spec_read_u32(p, 96) == f.ctime.nanos
            &&& spec_read_u32(p, 100) == spec_mode(f.kind, f.perm)
            &&& spec_read_u32(p, 104) == f.nlink
            &&& spec_read_u32(p, 108) == f.uid
            &&& spec_read_u32(p, 112) == f.gid
            &&& spec_read_u32(p, 116) == f.rdev
            &&& spec_read_u32(p, 120) == f.blksize
        }),
{
    let e = spec_entry_of(entry, override_attr);
    let a = e.attr;
    let pre = le_u64(e.nodeid) + le_u64(e.generation) + le_u64(e.entry_valid) + le_u64(e.attr_valid)
        + le_u32(e.entry_valid_nsec) + le_u32(e.attr_valid_nsec);
    let b = a.spec_bytes();
    let p = e.spec_bytes();
    assert(p =~= pre + b);
    assert(p.subrange(0, 8) =~= le_u64(e.nodeid));
    law_read_u64_at(p, 0, e.nodeid);
    assert(p.subrange(8, 16) =~= le_u64(e.generation));
    law_read_u64_at(p, 8, e.generation);
    assert(p.subrange(16, 24) =~= le_u64(e.entry_valid));
    law_read_u64_at(p, 16, e.entry_valid);
    assert(p.subrange(24, 32) =~= le_u64(e.attr_valid));
    law_read_u64_at(p, 24, e.attr_valid);
    assert(p.subrange(32, 36) =~= le_u32(e.entry_valid_nsec));
    law_read_u32_at(p, 32, e.entry_valid_nsec);
    assert(p.subrange(36, 40) =~= le_u32(e.attr_valid_nsec));
    law_read_u32_at(p, 36, e.attr_valid_nsec);
    law_attr_record_layout(a);
    assert(pre.len() == 40);
    law_read_u64_in_tail(pre, b, 0);
    law_read_u64_in_tail(pre, b, 8);
    law_read_u64_in_tail(pre, b, 16);
    law_read_u64_in_tail(pre, b, 24);
    law_read_u64_in_tail(pre, b, 32);
    law_read_u64_in_tail(pre, b, 40);
    law_read_u32_in_tail(pre, b, 48);
    law_read_u32_in_tail(pre, b, 52);
    law_read_u32_in_tail(pre, b, 56);
    law_read_u32_in_tail(pre, b, 60);
    law_read_u32_in_tail(pre, b, 64);
    law_read_u32_in_tail(pre, b, 68);
    law_read_u32_in_tail(pre, b, 72);
    law_read_u32_in_tail(pre, b, 76);
    law_read_u32_in_tail(pre, b, 80);
}


/// An open reply carries the file handle, then the open flags, then the backing id
/// (zero when there is none).
pub proof fn law_open_reply_layout(open: Open)
    ensures
        ({
            let p = spec_open_out(open);
            &&& p.len() == 16
            &&& spec_read_u64(p, 0) == open.fh
            &&& spec_read_u32(p, 8) == open.flags
            &&& spec_read_u32(p, 12) == match open.backing_id {
                Some(id) => id,
                None => 0u32,
            }
        }),
{
    let p = spec_open_out(open);
    let b: u32 = match open.backing_id {
        Some(id) => id,
        None => 0u32,
    };
    assert(p.subrange(0, 8) =~= le_u64(open.fh));
    law_read_u64_at(p, 0, open.fh);
    assert(p.subrange(8, 12) =~= le_u32(open.flags));
    law_read_u32_at(p, 8, open.flags);
    assert(p.subrange(12, 16) =~= le_u32(b));
    law_read_u32_at(p, 12, b);
}

/// A create reply is the entry reply followed by the open reply: the file handle at
/// 128, the open flags at 136.
pub proof fn law_create_reply_layout(entry: Entry, open: Open, override_attr: bool)
    ensures
        ({
            let e = spec_entry_of(entry, override_attr).spec_bytes();
            let p = e + spec_open_out(open);
            &&& p.len() == 144
            &&& p.subrange(0, 128) == e
            &&& spec_read_u64(p, 128) == open.fh
            &&& spec_read_u32(p, 136) == open.flags
        }),
{
    let e = spec_entry_of(entry, override_attr).spec_bytes();
    let o = spec_open_out(open);
    law_entry_reply_layout(entry, override_attr);
    law_open_reply_layout(open);
    assert((e + o).subrange(0, 128) =~= e);
    law_read_u64_in_tail(e, o, 0);
    law_read_u32_in_tail(e, o, 8);
}

/// A statfs reply carries the block, free block, available block, file and free file
/// counts, then the block size, the maximum name length and the fragment size.
pub proof fn law_statfs_reply_layout(st: Statfs)
    ensures
        ({
            let p = spec_statfs_out(st);
            &&& p.len() == 80
            &&& spec_read_u64(p, 0) == st.blocks
            &&& spec_read_u64(p, 8) == st.bfree
            &&& spec_read_u64(p, 16) == st.bavail
            &&& spec_read_u64(p, 24) == st.files
            &&& spec_read_u64(p, 32) == st.ffree
            &&& spec_read_u32(p, 40) == st.bsize
            &&& spec_read_u32(p, 44) == st.namelen
            &&& spec_read_u32(p, 48) == st.frsize
        }),
{
    let p = spec_statfs_out(st);
    assert(p.subrange(0, 8) =~= le_u64(st.blocks));
    law_read_u64_at(p, 0, st.blocks);
    assert(p.subrange(8, 16) =~= le_u64(st.bfree));
    law_read_u64_at(p, 8, st.bfree);
    assert(p.subrange(16, 24) =~= le_u64(st.bavail));
    law_read_u64_at(p, 16, st.bavail);
    assert(p.subrange(24, 32) =~= le_u64(st.files));
    law_read_u64_at(p, 24, st.files);
    assert(p.subrange(32, 40) =~= le_u64(st.ffree));
    law_read_u64_at(p, 32, st.ffree);
    assert(p.subrange(40, 44) =~= le_u32(st.bsize));
    law_read_u32_at(p, 40, st.bsize);
    assert(p.subrange(44, 48) =~= le_u32(st.namelen));
    law_read_u32_at(p, 44, st.namelen);
    assert(p.subrange(48, 52) =~= le_u32(st.frsize));
    law_read_u32_at(p, 48, st.frsize);
}

/// A lock reply carries the start and end of the range, then the lock type (two's
/// complement) and the pid of the holder.
pub proof fn law_lock_reply_layout(l: Lock)
    ensures
        ({
            let p = spec_lock_out(l);
            &&& p.len() == 24
            &&& spec_read_u64(p, 0) == l.start
            &&& spec_read_u64(p, 8) == l.end
            &&& spec_read_u32(p, 16) == l.typ as u32
            &&& spec_read_u32(p, 20) == l.pid
        }),
{
    let p = spec_lock_out(l);
    assert(p.subrange(0, 8) =~= le_u64(l.start));
    law_read_u64_at(p, 0, l.start);
    assert(p.subrange(8, 16) =~= le_u64(l.end));
    law_read_u64_at(p, 8, l.end);
    assert(p.subrange(16, 20) =~= le_u32(l.typ as u32));
    law_read_u32_at(p, 16, l.typ as u32);
    assert(p.subrange(20, 24) =~= le_u32(l.pid));
    law_read_u32_at(p, 20, l.pid);
}

/// A reply carrying one value (written size, poll events, attribute size) holds it in
/// its first four bytes, followed by four zero bytes.
pub proof fn law_u32_reply_layout(value: u32)
    ensures
        spec_u32_out(value).len() == 8,
        spec_read_u32(spec_u32_out(value), 0) == value,
        spec_read_u32(spec_u32_out(value), 4) == 0,
{
    let p = spec_u32_out(value);
    assert(p.subrange(0, 4) =~= le_u32(value));
    law_read_u32_at(p, 0, value);
    assert(p.subrange(4, 8) =~= le_u32(0));
    law_read_u32_at(p, 4, 0);
}

/// An xtimes reply carries the backup time's seconds, then the creation time's
/// seconds, then their nanoseconds in the same order.
pub proof fn law_xtimes_reply_layout(x: XTimes)
    ensures
        ({
            let p = spec_xtimes_out((x.bkuptime.secs, x.bkuptime.nanos), (x.crtime.secs, x.crtime.nanos));
            &&& p.len() == 24
            &&& spec_read_u64(p, 0) == x.bkuptime.secs as u64
            &&& spec_read_u64(p, 8) == x.crtime.secs as u64
            &&& spec_read_u32(p, 16) == x.bkuptime.nanos
            &&& spec_read_u32(p, 20) == x.crtime.nanos
        }),
{
    let p = spec_xtimes_out((x.bkuptime.secs, x.bkuptime.nanos), (x.crtime.secs, x.crtime.nanos));
    assert(p.subrange(0, 8) =~= le_u64(x.bkuptime.secs as u64));
    law_read_u64_at(p, 0, x.bkuptime.secs as u64);
    assert(p.subrange(8, 16) =~= le_u64(x.crtime.secs as u64));
    law_read_u64_at(p, 8, x.crtime.secs as u64);
    assert(p.subrange(16, 20) =~= le_u32(x.bkuptime.nanos));
    law_read_u32_at(p, 16, x.bkuptime.nanos);
    assert(p.subrange(20, 24) =~= le_u32(x.crtime.nanos));
    law_read_u32_at(p, 20, x.crtime.nanos);
}

/// An ioctl reply carries the result (two's complement), no flags and no iovecs,
/// then the data.
pub proof fn law_ioctl_reply_layout(result: i32, data: Seq<u8>)
    ensures
        ({
            let p = spec_ioctl_out(result, data);
            &&& p.len() == 16 + data.len()
            &&& spec_read_u32(p, 0) == result as u32
            &&& spec_read_u32(p, 4) == 0
            &&& spec_read_u32(p, 8) == 0
            &&& spec_read_u32(p, 12) == 0
            &&& p.subrange(16, p.len() as int) == data
        }),
{
    let p = spec_ioctl_out(result, data);
    assert(p.subrange(0, 4) =~= le_u32(result as u32));
    law_read_u32_at(p, 0, result as u32);
    assert(p.subrange(4, 8) =~= le_u32(0));
    law_read_u32_at(p, 4, 0);
    assert(p.subrange(8, 12) =~= le_u32(0));
    law_read_u32_at(p, 8, 0);
    assert(p.subrange(12, 16) =~= le_u32(0));
    law_read_u32_at(p, 12, 0);
    assert(p.subrange(16, p.len() as int) =~= data);
}


/// Every message carries its error field in bytes 4 to 8: the error (the negated errno,
/// or 0) it was built with, two's complement.
pub proof fn law_message_carries_error(unique: u64, error: i32, payload: Seq<u8>)
    requires
        spec_message(unique, error, payload) is Some,
    ensures
        spec_read_u32(spec_message(unique, error, payload)->0, 4) == error as u32,
{
    let m = spec_message(unique, error, payload)->0;
    assert(m.subrange(4, 8) =~= le_u32(error as u32));
    law_read_u32_at(m, 4, error as u32);
}


/// An error reply carries the negated errno in its header: `-err` for a non-zero
/// `err`, and `-EIO` for the invalid errno 0.
pub proof fn law_error_reply_errno(err: i32)
    ensures
        err != 0 && err != i32::MIN ==> spec_error_field(spec_errno(err)) == -err,
        err == 0 ==> spec_error_field(spec_errno(err)) == -5,
{
}

} // verus!
