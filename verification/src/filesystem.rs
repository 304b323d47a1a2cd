//! The filesystem a session serves, and the dispatch of each kernel request to it.
//!
//! A filesystem implements `Filesystem`, one method per operation. Each method comes
//! with a hook (a spec function that defaults to `true`) through which an
//! implementation may say what the method does; `dispatch` states which method it
//! called, with which decoded arguments and reply container, in terms of these hooks.
//! An implementation that does not serve an operation answers it with `ENOSYS`.
//!
//! `dispatch` routes a request (see `crate::dispatch`), decodes its arguments (the
//! kernel's `fuse_*_in` structures, names and data), calls the filesystem method of
//! its operation with a reply container holding the request's reply handler, and moves
//! the session's protocol state on.

use vstd::prelude::*;

use crate::callback::{
    DirectoryHandler, DirectoryPlusHandler, ReplyAttr, ReplyBmap, ReplyCreate, ReplyData, ReplyDirectory,
    ReplyDirectoryPlus, ReplyEmpty, ReplyEntry, ReplyIoctl, ReplyLock, ReplyLseek, ReplyOpen, ReplyPoll, ReplyStatfs,
    ReplyWrite, ReplyXattr, ReplyXTimes,
};
use crate::data::{spec_new_config, KernelConfig, KernelConfigView};
use crate::dispatch::{enosys, route_request, spec_route_request, OperationKind, Route};
use crate::reply::{spec_errno, spec_error_field, ReplyHandler, ReplySender};
use crate::request::{parse_init_in, read_u32, read_u64, spec_init_in, spec_read_u32, spec_read_u64, RequestMeta};
use crate::session::{SessionACL, SessionState};

verus! {

/// `ENOSYS`, the answer of an operation the filesystem does not implement.
pub const ENOSYS: i32 = 38;

/* ------ Names ------ */

/// `s` holds a zero byte.
pub open spec fn spec_has_zero(s: Seq<u8>) -> bool {
    exists|k: int| 0 <= k < s.len() && s[k] == 0
}

/// The position of the first zero byte of `s` (when it has one).
pub open spec fn spec_first_zero(s: Seq<u8>) -> int {
    choose|k: int| 0 <= k < s.len() && s[k] == 0 && forall|j: int| 0 <= j < k ==> s[j] != 0
}

/// The zero-terminated name `s` starts with: the bytes before its first zero byte;
/// `None` when it has none.
pub open spec fn spec_cstr(s: Seq<u8>) -> Option<Seq<u8>> {
    if spec_has_zero(s) {
        Some(s.subrange(0, spec_first_zero(s)))
    } else {
        None
    }
}

/// What follows the zero-terminated name `s` starts with.
pub open spec fn spec_after_cstr(s: Seq<u8>) -> Seq<u8> {
    s.subrange(spec_first_zero(s) + 1, s.len() as int)
}

/// The zero-terminated name `data` starts with, and what follows it.
pub fn cstr(data: &[u8]) -> (r: Option<(&[u8], &[u8])>)
    ensures
        r is None <==> spec_cstr(data@) is None,
        r matches Some((name, rest)) ==> spec_cstr(data@) == Some(name@) && rest@ == spec_after_cstr(data@),
{
    let mut i: usize = 0;
    while i < data.len()
        invariant
            i <= data@.len(),
            forall|k: int| 0 <= k < i ==> data@[k] != 0,
        decreases data@.len() - i,
    {
        if data[i] == 0 {
            proof {
                assert(data@[i as int] == 0);
                let k = spec_first_zero(data@);
                assert(0 <= k < data@.len() && data@[k] == 0 && forall|j: int| 0 <= j < k ==> data@[j] != 0);
                if k < i {
                    assert(data@[k] != 0);
                } else if k > i {
                    assert(data@[i as int] != 0);
                }
                assert(k == i);
            }
            let name = vstd::slice::slice_subrange(data, 0, i);
            let rest = vstd::slice::slice_subrange(data, i + 1, data.len());
            return Some((name, rest));
        }
        i = i + 1;
    }
    None
}

/* ------ Arguments ------ */
/// The `fuse_forget_in` arguments.
#[derive(Clone, Copy, Debug, PartialEq, Eq, Structural)]
pub struct ForgetIn {
    pub nlookup: u64,
}

/// The `fuse_forget_in` at the start of `body` (at least 8 bytes).
pub open spec fn spec_forgetin(body: Seq<u8>) -> ForgetIn {
    ForgetIn {
        nlookup: spec_read_u64(body, 0),
    }
}

/// Read the `fuse_forget_in` at the start of `body`.
fn read_forgetin(body: &[u8]) -> (r: ForgetIn)
    requires
        body@.len() >= 8,
    ensures
        r == spec_forgetin(body@),
{
    ForgetIn {
        nlookup: read_u64(body, 0),
    }
}

/// The `fuse_getattr_in` arguments.
#[derive(Clone, Copy, Debug, PartialEq, Eq, Structural)]
pub struct GetattrIn {
    pub getattr_flags: u32,
    pub dummy: u32,
    pub fh: u64,
}

/// The `fuse_getattr_in` at the start of `body` (at least 16 bytes).
pub open spec fn spec_getattrin(body: Seq<u8>) -> GetattrIn {
    GetattrIn {
        getattr_flags: spec_read_u32(body, 0),
        dummy: spec_read_u32(body, 4),
        fh: spec_read_u64(body, 8),
    }
}

/// Read the `fuse_getattr_in` at the start of `body`.
fn read_getattrin(body: &[u8]) -> (r: GetattrIn)
    requires
        body@.len() >= 16,
    ensures
        r == spec_getattrin(body@),
{
    GetattrIn {
        getattr_flags: read_u32(body, 0),
        dummy: read_u32(body, 4),
        fh: read_u64(body, 8),
    }
}

/// The `fuse_setattr_in` arguments.
#[derive(Clone, Copy, Debug, PartialEq, Eq, Structural)]
pub struct SetattrIn {
    pub valid: u32,
    pub padding: u32,
    pub fh: u64,
    pub size: u64,
    pub lock_owner: u64,
    pub atime: u64,
    pub mtime: u64,
    pub ctime: u64,
    pub atimensec: u32,
    pub mtimensec: u32,
    pub ctimensec: u32,
    pub mode: u32,
    pub unused4: u32,
    pub uid: u32,
    pub gid: u32,
    pub unused5: u32,
}

/// The `fuse_setattr_in` at the start of `body` (at least 88 bytes).
pub open spec fn spec_setattrin(body: Seq<u8>) -> SetattrIn {
    SetattrIn {
        valid: spec_read_u32(body, 0),
        padding: spec_read_u32(body, 4),
        fh: spec_read_u64(body, 8),
        size: spec_read_u64(body, 16),
        lock_owner: spec_read_u64(body, 24),
        atime: spec_read_u64(body, 32),
        mtime: spec_read_u64(body, 40),
        ctime: spec_read_u64(body, 48),
        atimensec: spec_read_u32(body, 56),
        mtimensec: spec_read_u32(body, 60),
        ctimensec: spec_read_u32(body, 64),
        mode: spec_read_u32(body, 68),
        unused4: spec_read_u32(body, 72),
        uid: spec_read_u32(body, 76),
        gid: spec_read_u32(body, 80),
        unused5: spec_read_u32(body, 84),
    }
}

/// Read the `fuse_setattr_in` at the start of `body`.
fn read_setattrin(body: &[u8]) -> (r: SetattrIn)
    requires
        body@.len() >= 88,
    ensures
        r == spec_setattrin(body@),
{
    SetattrIn {
        valid: read_u32(body, 0),
        padding: read_u32(body, 4),
        fh: read_u64(body, 8),
        size: read_u64(body, 16),
        lock_owner: read_u64(body, 24),
        atime: read_u64(body, 32),
        mtime: read_u64(body, 40),
        ctime: read_u64(body, 48),
        atimensec: read_u32(body, 56),
        mtimensec: read_u32(body, 60),
        ctimensec: read_u32(body, 64),
        mode: read_u32(body, 68),
        unused4: read_u32(body, 72),
        uid: read_u32(body, 76),
        gid: read_u32(body, 80),
        unused5: read_u32(body, 84),
    }
}

/// The `fuse_mknod_in` arguments.
#[derive(Clone, Copy, Debug, PartialEq, Eq, Structural)]
pub struct MknodIn {
    pub mode: u32,
    pub rdev: u32,
    pub umask: u32,
    pub padding: u32,
}

/// The `fuse_mknod_in` at the start of `body` (at least 16 bytes).
pub open spec fn spec_mknodin(body: Seq<u8>) -> MknodIn {
    MknodIn {
        mode: spec_read_u32(body, 0),
        rdev: spec_read_u32(body, 4),
        umask: spec_read_u32(body, 8),
        padding: spec_read_u32(body, 12),
    }
}

/// Read the `fuse_mknod_in` at the start of `body`.
fn read_mknodin(body: &[u8]) -> (r: MknodIn)
    requires
        body@.len() >= 16,
    ensures
        r == spec_mknodin(body@),
{
    MknodIn {
        mode: read_u32(body, 0),
        rdev: read_u32(body, 4),
        umask: read_u32(body, 8),
        padding: read_u32(body, 12),
    }
}

/// The `fuse_mkdir_in` arguments.
#[derive(Clone, Copy, Debug, PartialEq, Eq, Structural)]
pub struct MkdirIn {
    pub mode: u32,
    pub umask: u32,
}

/// The `fuse_mkdir_in` at the start of `body` (at least 8 bytes).
pub open spec fn spec_mkdirin(body: Seq<u8>) -> MkdirIn {
    MkdirIn {
        mode: spec_read_u32(body, 0),
        umask: spec_read_u32(body, 4),
    }
}

/// Read the `fuse_mkdir_in` at the start of `body`.
fn read_mkdirin(body: &[u8]) -> (r: MkdirIn)
    requires
        body@.len() >= 8,
    ensures
        r == spec_mkdirin(body@),
{
    MkdirIn {
        mode: read_u32(body, 0),
        umask: read_u32(body, 4),
    }
}

/// The `fuse_link_in` arguments.
#[derive(Clone, Copy, Debug, PartialEq, Eq, Structural)]
pub struct LinkIn {
    pub oldnodeid: u64,
}

/// The `fuse_link_in` at the start of `body` (at least 8 bytes).
pub open spec fn spec_linkin(body: Seq<u8>) -> LinkIn {
    LinkIn {
        oldnodeid: spec_read_u64(body, 0),
    }
}

/// Read the `fuse_link_in` at the start of `body`.
fn read_linkin(body: &[u8]) -> (r: LinkIn)
    requires
        body@.len() >= 8,
    ensures
        r == spec_linkin(body@),
{
    LinkIn {
        oldnodeid: read_u64(body, 0),
    }
}

/// The `fuse_open_in` arguments.
#[derive(Clone, Copy, Debug, PartialEq, Eq, Structural)]
pub struct OpenIn {
    pub flags: u32,
    pub open_flags: u32,
}

/// The `fuse_open_in` at the start of `body` (at least 8 bytes).
pub open spec fn spec_openin(body: Seq<u8>) -> OpenIn {
    OpenIn {
        flags: spec_read_u32(body, 0),
        open_flags: spec_read_u32(body, 4),
    }
}

/// Read the `fuse_open_in` at the start of `body`.
fn read_openin(body: &[u8]) -> (r: OpenIn)
    requires
        body@.len() >= 8,
    ensures
        r == spec_openin(body@),
{
    OpenIn {
        flags: read_u32(body, 0),
        open_flags: read_u32(body, 4),
    }
}

/// The `fuse_read_in` arguments.
#[derive(Clone, Copy, Debug, PartialEq, Eq, Structural)]
pub struct ReadIn {
    pub fh: u64,
    pub offset: u64,
    pub size: u32,
    pub read_flags: u32,
    pub lock_owner: u64,
    pub flags: u32,
    pub padding: u32,
}

/// The `fuse_read_in` at the start of `body` (at least 40 bytes).
pub open spec fn spec_readin(body: Seq<u8>) -> ReadIn {
    ReadIn {
        fh: spec_read_u64(body, 0),
        offset: spec_read_u64(body, 8),
        size: spec_read_u32(body, 16),
        read_flags: spec_read_u32(body, 20),
        lock_owner: spec_read_u64(body, 24),
        flags: spec_read_u32(body, 32),
        padding: spec_read_u32(body, 36),
    }
}

/// Read the `fuse_read_in` at the start of `body`.
fn read_readin(body: &[u8]) -> (r: ReadIn)
    requires
        body@.len() >= 40,
    ensures
        r == spec_readin(body@),
{
    ReadIn {
        fh: read_u64(body, 0),
        offset: read_u64(body, 8),
        size: read_u32(body, 16),
        read_flags: read_u32(body, 20),
        lock_owner: read_u64(body, 24),
        flags: read_u32(body, 32),
        padding: read_u32(body, 36),
    }
}

/// The `fuse_write_in` arguments.
#[derive(Clone, Copy, Debug, PartialEq, Eq, Structural)]
pub struct WriteIn {
    pub fh: u64,
    pub offset: u64,
    pub size: u32,
    pub write_flags: u32,
    pub lock_owner: u64,
    pub flags: u32,
    pub padding: u32,
}

/// The `fuse_write_in` at the start of `body` (at least 40 bytes).
pub open spec fn spec_writein(body: Seq<u8>) -> WriteIn {
    WriteIn {
        fh: spec_read_u64(body, 0),
        offset: spec_read_u64(body, 8),
        size: spec_read_u32(body, 16),
        write_flags: spec_read_u32(body, 20),
        lock_owner: spec_read_u64(body, 24),
        flags: spec_read_u32(body, 32),
        padding: spec_read_u32(body, 36),
    }
}

/// Read the `fuse_write_in` at the start of `body`.
fn read_writein(body: &[u8]) -> (r: WriteIn)
    requires
        body@.len() >= 40,
    ensures
        r == spec_writein(body@),
{
    WriteIn {
        fh: read_u64(body, 0),
        offset: read_u64(body, 8),
        size: read_u32(body, 16),
        write_flags: read_u32(body, 20),
        lock_owner: read_u64(body, 24),
        flags: read_u32(body, 32),
        padding: read_u32(body, 36),
    }
}

/// The `fuse_release_in` arguments.
#[derive(Clone, Copy, Debug, PartialEq, Eq, Structural)]
pub struct ReleaseIn {
    pub fh: u64,
    pub flags: u32,
    pub release_flags: u32,
    pub lock_owner: u64,
}

/// The `fuse_release_in` at the start of `body` (at least 24 bytes).
pub open spec fn spec_releasein(body: Seq<u8>) -> ReleaseIn {
    ReleaseIn {
        fh: spec_read_u64(body, 0),
        flags: spec_read_u32(body, 8),
        release_flags: spec_read_u32(body, 12),
        lock_owner: spec_read_u64(body, 16),
    }
}

/// Read the `fuse_release_in` at the start of `body`.
fn read_releasein(body: &[u8]) -> (r: ReleaseIn)
    requires
        body@.len() >= 24,
    ensures
        r == spec_releasein(body@),
{
    ReleaseIn {
        fh: read_u64(body, 0),
        flags: read_u32(body, 8),
        release_flags: read_u32(body, 12),
        lock_owner: read_u64(body, 16),
    }
}

/// The `fuse_fsync_in` arguments.
#[derive(Clone, Copy, Debug, PartialEq, Eq, Structural)]
pub struct FsyncIn {
    pub fh: u64,
    pub fsync_flags: u32,
    pub padding: u32,
}

/// The `fuse_fsync_in` at the start of `body` (at least 16 bytes).
pub open spec fn spec_fsyncin(body: Seq<u8>) -> FsyncIn {
    FsyncIn {
        fh: spec_read_u64(body, 0),
        fsync_flags: spec_read_u32(body, 8),
        padding: spec_read_u32(body, 12),
    }
}

/// Read the `fuse_fsync_in` at the start of `body`.
fn read_fsyncin(body: &[u8]) -> (r: FsyncIn)
    requires
        body@.len() >= 16,
    ensures
        r == spec_fsyncin(body@),
{
    FsyncIn {
        fh: read_u64(body, 0),
        fsync_flags: read_u32(body, 8),
        padding: read_u32(body, 12),
    }
}

/// The `fuse_setxattr_in` arguments.
#[derive(Clone, Copy, Debug, PartialEq, Eq, Structural)]
pub struct SetxattrIn {
    pub size: u32,
    pub flags: u32,
}

/// The `fuse_setxattr_in` at the start of `body` (at least 8 bytes).
pub open spec fn spec_setxattrin(body: Seq<u8>) -> SetxattrIn {
    SetxattrIn {
        size: spec_read_u32(body, 0),
        flags: spec_read_u32(body, 4),
    }
}

/// Read the `fuse_setxattr_in` at the start of `body`.
fn read_setxattrin(body: &[u8]) -> (r: SetxattrIn)
    requires
        body@.len() >= 8,
    ensures
        r == spec_setxattrin(body@),
{
    SetxattrIn {
        size: read_u32(body, 0),
        flags: read_u32(body, 4),
    }
}

/// The `fuse_getxattr_in` arguments.
#[derive(Clone, Copy, Debug, PartialEq, Eq, Structural)]
pub struct GetxattrIn {
    pub size: u32,
    pub padding: u32,
}

/// The `fuse_getxattr_in` at the start of `body` (at least 8 bytes).
pub open spec fn spec_getxattrin(body: Seq<u8>) -> GetxattrIn {
    GetxattrIn {
        size: spec_read_u32(body, 0),
        padding: spec_read_u32(body, 4),
    }
}

/// Read the `fuse_getxattr_in` at the start of `body`.
fn read_getxattrin(body: &[u8]) -> (r: GetxattrIn)
    requires
        body@.len() >= 8,
    ensures
        r == spec_getxattrin(body@),
{
    GetxattrIn {
        size: read_u32(body, 0),
        padding: read_u32(body, 4),
    }
}

/// The `fuse_flush_in` arguments.
#[derive(Clone, Copy, Debug, PartialEq, Eq, Structural)]
pub struct FlushIn {
    pub fh: u64,
    pub unused: u32,
    pub padding: u32,
    pub lock_owner: u64,
}

/// The `fuse_flush_in` at the start of `body` (at least 24 bytes).
pub open spec fn spec_flushin(body: Seq<u8>) -> FlushIn {
    FlushIn {
        fh: spec_read_u64(body, 0),
        unused: spec_read_u32(body, 8),
        padding: spec_read_u32(body, 12),
        lock_owner: spec_read_u64(body, 16),
    }
}

/// Read the `fuse_flush_in` at the start of `body`.
fn read_flushin(body: &[u8]) -> (r: FlushIn)
    requires
        body@.len() >= 24,
    ensures
        r == spec_flushin(body@),
{
    FlushIn {
        fh: read_u64(body, 0),
        unused: read_u32(body, 8),
        padding: read_u32(body, 12),
        lock_owner: read_u64(body, 16),
    }
}

/// The `fuse_lk_in` arguments.
#[derive(Clone, Copy, Debug, PartialEq, Eq, Structural)]
pub struct LkIn {
    pub fh: u64,
    pub owner: u64,
    pub start: u64,
    pub end: u64,
    pub typ: u32,
    pub pid: u32,
    pub lk_flags: u32,
    pub padding: u32,
}

/// The `fuse_lk_in` at the start of `body` (at least 48 bytes).
pub open spec fn spec_lkin(body: Seq<u8>) -> LkIn {
    LkIn {
        fh: spec_read_u64(body, 0),
        owner: spec_read_u64(body, 8),
        start: spec_read_u64(body, 16),
        end: spec_read_u64(body, 24),
        typ: spec_read_u32(body, 32),
        pid: spec_read_u32(body, 36),
        lk_flags: spec_read_u32(body, 40),
        padding: spec_read_u32(body, 44),
    }
}

/// Read the `fuse_lk_in` at the start of `body`.
fn read_lkin(body: &[u8]) -> (r: LkIn)
    requires
        body@.len() >= 48,
    ensures
        r == spec_lkin(body@),
{
    LkIn {
        fh: read_u64(body, 0),
        owner: read_u64(body, 8),
        start: read_u64(body, 16),
        end: read_u64(body, 24),
        typ: read_u32(body, 32),
        pid: read_u32(body, 36),
        lk_flags: read_u32(body, 40),
        padding: read_u32(body, 44),
    }
}

/// The `fuse_access_in` arguments.
#[derive(Clone, Copy, Debug, PartialEq, Eq, Structural)]
pub struct AccessIn {
    pub mask: u32,
    pub padding: u32,
}

/// The `fuse_access_in` at the start of `body` (at least 8 bytes).
pub open spec fn spec_accessin(body: Seq<u8>) -> AccessIn {
    AccessIn {
        mask: spec_read_u32(body, 0),
        padding: spec_read_u32(body, 4),
    }
}

/// Read the `fuse_access_in` at the start of `body`.
fn read_accessin(body: &[u8]) -> (r: AccessIn)
    requires
        body@.len() >= 8,
    ensures
        r == spec_accessin(body@),
{
    AccessIn {
        mask: read_u32(body, 0),
        padding: read_u32(body, 4),
    }
}

/// The `fuse_create_in` arguments.
#[derive(Clone, Copy, Debug, PartialEq, Eq, Structural)]
pub struct CreateIn {
    pub flags: u32,
    pub mode: u32,
    pub umask: u32,
    pub open_flags: u32,
}

/// The `fuse_create_in` at the start of `body` (at least 16 bytes).
pub open spec fn spec_createin(body: Seq<u8>) -> CreateIn {
    CreateIn {
        flags: spec_read_u32(body, 0),
        mode: spec_read_u32(body, 4),
        umask: spec_read_u32(body, 8),
        open_flags: spec_read_u32(body, 12),
    }
}

/// Read the `fuse_create_in` at the start of `body`.
fn read_createin(body: &[u8]) -> (r: CreateIn)
    requires
        body@.len() >= 16,
    ensures
        r == spec_createin(body@),
{
    CreateIn {
        flags: read_u32(body, 0),
        mode: read_u32(body, 4),
        umask: read_u32(body, 8),
        open_flags: read_u32(body, 12),
    }
}

/// The `fuse_bmap_in` arguments.
#[derive(Clone, Copy, Debug, PartialEq, Eq, Structural)]
pub struct BmapIn {
    pub block: u64,
    pub blocksize: u32,
    pub padding: u32,
}

/// The `fuse_bmap_in` at the start of `body` (at least 16 bytes).
pub open spec fn spec_bmapin(body: Seq<u8>) -> BmapIn {
    BmapIn {
        block: spec_read_u64(body, 0),
        blocksize: spec_read_u32(body, 8),
        padding: spec_read_u32(body, 12),
    }
}

/// Read the `fuse_bmap_in` at the start of `body`.
fn read_bmapin(body: &[u8]) -> (r: BmapIn)
    requires
        body@.len() >= 16,
    ensures
        r == spec_bmapin(body@),
{
    BmapIn {
        block: read_u64(body, 0),
        blocksize: read_u32(body, 8),
        padding: read_u32(body, 12),
    }
}

/// The `fuse_ioctl_in` arguments.
#[derive(Clone, Copy, Debug, PartialEq, Eq, Structural)]
pub struct IoctlIn {
    pub fh: u64,
    pub flags: u32,
    pub cmd: u32,
    pub arg: u64,
    pub in_size: u32,
    pub out_size: u32,
}

/// The `fuse_ioctl_in` at the start of `body` (at least 32 bytes).
pub open spec fn spec_ioctlin(body: Seq<u8>) -> IoctlIn {
    IoctlIn {
        fh: spec_read_u64(body, 0),
        flags: spec_read_u32(body, 8),
        cmd: spec_read_u32(body, 12),
        arg: spec_read_u64(body, 16),
        in_size: spec_read_u32(body, 24),
        out_size: spec_read_u32(body, 28),
    }
}

/// Read the `fuse_ioctl_in` at the start of `body`.
fn read_ioctlin(body: &[u8]) -> (r: IoctlIn)
    requires
        body@.len() >= 32,
    ensures
        r == spec_ioctlin(body@),
{
    IoctlIn {
        fh: read_u64(body, 0),
        flags: read_u32(body, 8),
        cmd: read_u32(body, 12),
        arg: read_u64(body, 16),
        in_size: read_u32(body, 24),
        out_size: read_u32(body, 28),
    }
}

/// The `fuse_poll_in` arguments.
#[derive(Clone, Copy, Debug, PartialEq, Eq, Structural)]
pub struct PollIn {
    pub fh: u64,
    pub kh: u64,
    pub flags: u32,
    pub events: u32,
}

/// The `fuse_poll_in` at the start of `body` (at least 24 bytes).
pub open spec fn spec_pollin(body: Seq<u8>) -> PollIn {
    PollIn {
        fh: spec_read_u64(body, 0),
        kh: spec_read_u64(body, 8),
        flags: spec_read_u32(body, 16),
        events: spec_read_u32(body, 20),
    }
}

/// Read the `fuse_poll_in` at the start of `body`.
fn read_pollin(body: &[u8]) -> (r: PollIn)
    requires
        body@.len() >= 24,
    ensures
        r == spec_pollin(body@),
{
    PollIn {
        fh: read_u64(body, 0),
        kh: read_u64(body, 8),
        flags: read_u32(body, 16),
        events: read_u32(body, 20),
    }
}

/// The `fuse_fallocate_in` arguments.
#[derive(Clone, Copy, Debug, PartialEq, Eq, Structural)]
pub struct FallocateIn {
    pub fh: u64,
    pub offset: u64,
    pub length: u64,
    pub mode: u32,
    pub padding: u32,
}

/// The `fuse_fallocate_in` at the start of `body` (at least 32 bytes).
pub open spec fn spec_fallocatein(body: Seq<u8>) -> FallocateIn {
    FallocateIn {
        fh: spec_read_u64(body, 0),
        offset: spec_read_u64(body, 8),
        length: spec_read_u64(body, 16),
        mode: spec_read_u32(body, 24),
        padding: spec_read_u32(body, 28),
    }
}

/// Read the `fuse_fallocate_in` at the start of `body`.
fn read_fallocatein(body: &[u8]) -> (r: FallocateIn)
    requires
        body@.len() >= 32,
    ensures
        r == spec_fallocatein(body@),
{
    FallocateIn {
        fh: read_u64(body, 0),
        offset: read_u64(body, 8),
        length: read_u64(body, 16),
        mode: read_u32(body, 24),
        padding: read_u32(body, 28),
    }
}

/// The `fuse_lseek_in` arguments.
#[derive(Clone, Copy, Debug, PartialEq, Eq, Structural)]
pub struct LseekIn {
    pub fh: u64,
    pub offset: u64,
    pub whence: u32,
    pub padding: u32,
}

/// The `fuse_lseek_in` at the start of `body` (at least 24 bytes).
pub open spec fn spec_lseekin(body: Seq<u8>) -> LseekIn {
    LseekIn {
        fh: spec_read_u64(body, 0),
        offset: spec_read_u64(body, 8),
        whence: spec_read_u32(body, 16),
        padding: spec_read_u32(body, 20),
    }
}

/// Read the `fuse_lseek_in` at the start of `body`.
fn read_lseekin(body: &[u8]) -> (r: LseekIn)
    requires
        body@.len() >= 24,
    ensures
        r == spec_lseekin(body@),
{
    LseekIn {
        fh: read_u64(body, 0),
        offset: read_u64(body, 8),
        whence: read_u32(body, 16),
        padding: read_u32(body, 20),
    }
}

/// The `fuse_copy_file_range_in` arguments.
#[derive(Clone, Copy, Debug, PartialEq, Eq, Structural)]
pub struct CopyFileRangeIn {
    pub fh_in: u64,
    pub off_in: u64,
    pub nodeid_out: u64,
    pub fh_out: u64,
    pub off_out: u64,
    pub len: u64,
    pub flags: u64,
}

/// The `fuse_copy_file_range_in` at the start of `body` (at least 56 bytes).
pub open spec fn spec_copyfilerangein(body: Seq<u8>) -> CopyFileRangeIn {
    CopyFileRangeIn {
        fh_in: spec_read_u64(body, 0),
        off_in: spec_read_u64(body, 8),
        nodeid_out: spec_read_u64(body, 16),
        fh_out: spec_read_u64(body, 24),
        off_out: spec_read_u64(body, 32),
        len: spec_read_u64(body, 40),
        flags: spec_read_u64(body, 48),
    }
}

/// Read the `fuse_copy_file_range_in` at the start of `body`.
fn read_copyfilerangein(body: &[u8]) -> (r: CopyFileRangeIn)
    requires
        body@.len() >= 56,
    ensures
        r == spec_copyfilerangein(body@),
{
    CopyFileRangeIn {
        fh_in: read_u64(body, 0),
        off_in: read_u64(body, 8),
        nodeid_out: read_u64(body, 16),
        fh_out: read_u64(body, 24),
        off_out: read_u64(body, 32),
        len: read_u64(body, 40),
        flags: read_u64(body, 48),
    }
}

/// The `fuse_rename2_in (for a plain rename only its first field is sent, and flags are 0)` arguments.
#[derive(Clone, Copy, Debug, PartialEq, Eq, Structural)]
pub struct RenameIn {
    pub newdir: u64,
    pub flags: u32,
    pub padding: u32,
}

/// The `fuse_rename2_in` at the start of `body` (at least 16 bytes).
pub open spec fn spec_renamein(body: Seq<u8>) -> RenameIn {
    RenameIn {
        newdir: spec_read_u64(body, 0),
        flags: spec_read_u32(body, 8),
        padding: spec_read_u32(body, 12),
    }
}

/// Read the `fuse_rename2_in` at the start of `body`.
fn read_renamein(body: &[u8]) -> (r: RenameIn)
    requires
        body@.len() >= 16,
    ensures
        r == spec_renamein(body@),
{
    RenameIn {
        newdir: read_u64(body, 0),
        flags: read_u32(body, 8),
        padding: read_u32(body, 12),
    }
}

/// The `fuse_exchange_in` arguments.
#[derive(Clone, Copy, Debug, PartialEq, Eq, Structural)]
pub struct ExchangeIn {
    pub olddir: u64,
    pub newdir: u64,
    pub options: u64,
}

/// The `fuse_exchange_in` at the start of `body` (at least 24 bytes).
pub open spec fn spec_exchangein(body: Seq<u8>) -> ExchangeIn {
    ExchangeIn {
        olddir: spec_read_u64(body, 0),
        newdir: spec_read_u64(body, 8),
        options: spec_read_u64(body, 16),
    }
}

/// Read the `fuse_exchange_in` at the start of `body`.
fn read_exchangein(body: &[u8]) -> (r: ExchangeIn)
    requires
        body@.len() >= 24,
    ensures
        r == spec_exchangein(body@),
{
    ExchangeIn {
        olddir: read_u64(body, 0),
        newdir: read_u64(body, 8),
        options: read_u64(body, 16),
    }
}

/// The arguments of a Lookup request in `body`; `None` when they cannot be read.
pub open spec fn spec_lookup_args(body: Seq<u8>) -> Option<Seq<u8>> {
    {
        match spec_cstr(body) {
            Some(name) => Some(name),
            None => None,
        }
    }
}

/// Read the arguments of a Lookup request.
pub fn lookup_args(body: &[u8]) -> (r: Option<&[u8]>)
    ensures
        r is None <==> spec_lookup_args(body@) is None,
        r matches Some(name) ==> spec_lookup_args(body@) == Some(name@),
{
    let rest = body;
    match cstr(rest) {
        Some((name, _)) => Some(name),
        None => None,
    }
}

/// The arguments of a GetAttr request in `body`; `None` when they cannot be read.
pub open spec fn spec_getattr_args(body: Seq<u8>) -> Option<GetattrIn> {
    if body.len() < 16 {
        None
    } else {
        let args = spec_getattrin(body);
        Some(args)
    }
}

/// Read the arguments of a GetAttr request.
pub fn getattr_args(body: &[u8]) -> (r: Option<GetattrIn>)
    ensures
        r is None <==> spec_getattr_args(body@) is None,
        r matches Some(args) ==> spec_getattr_args(body@) == Some(args),
{
    if body.len() < 16 {
        return None;
    }
    let args = read_getattrin(body);
    let rest = vstd::slice::slice_subrange(body, 16, body.len());
    Some(args)
}

/// The arguments of a SetAttr request in `body`; `None` when they cannot be read.
pub open spec fn spec_setattr_args(body: Seq<u8>) -> Option<SetattrIn> {
    if body.len() < 88 {
        None
    } else {
        let args = spec_setattrin(body);
        Some(args)
    }
}

/// Read the arguments of a SetAttr request.
pub fn setattr_args(body: &[u8]) -> (r: Option<SetattrIn>)
    ensures
        r is None <==> spec_setattr_args(body@) is None,
        r matches Some(args) ==> spec_setattr_args(body@) == Some(args),
{
    if body.len() < 88 {
        return None;
    }
    let args = read_setattrin(body);
    let rest = vstd::slice::slice_subrange(body, 88, body.len());
    Some(args)
}

/// The arguments of a SymLink request in `body`; `None` when they cannot be read.
pub open spec fn spec_symlink_args(body: Seq<u8>) -> Option<(Seq<u8>, Seq<u8>)> {
    {
        let rest = body;
        match spec_cstr(rest) {
            Some(first) => match spec_cstr(spec_after_cstr(rest)) {
                Some(second) => Some((first, second)),
                None => None,
            },
            None => None,
        }
    }
}

/// Read the arguments of a SymLink request.
pub fn symlink_args(body: &[u8]) -> (r: Option<(&[u8], &[u8])>)
    ensures
        r is None <==> spec_symlink_args(body@) is None,
        r is Some ==> ({ let (name, link) = r->Some_0; spec_symlink_args(body@) == Some((name@, link@)) }),
{
    let rest = body;
    match cstr(rest) {
        Some((first, after)) => match cstr(after) {
            Some((second, _)) => Some((first, second)),
            None => None,
        },
        None => None,
    }
}

/// The arguments of a MkNod request in `body`; `None` when they cannot be read.
pub open spec fn spec_mknod_args(body: Seq<u8>) -> Option<(MknodIn, Seq<u8>)> {
    if body.len() < 16 {
        None
    } else {
        let args = spec_mknodin(body);
        match spec_cstr(body.subrange(16, body.len() as int)) {
            Some(name) => Some((args, name)),
            None => None,
        }
    }
}

/// Read the arguments of a MkNod request.
pub fn mknod_args(body: &[u8]) -> (r: Option<(MknodIn, &[u8])>)
    ensures
        r is None <==> spec_mknod_args(body@) is None,
        r is Some ==> ({ let (args, name) = r->Some_0; spec_mknod_args(body@) == Some((args, name@)) }),
{
    if body.len() < 16 {
        return None;
    }
    let args = read_mknodin(body);
    let rest = vstd::slice::slice_subrange(body, 16, body.len());
    match cstr(rest) {
        Some((name, _)) => Some((args, name)),
        None => None,
    }
}

/// The arguments of a MkDir request in `body`; `None` when they cannot be read.
pub open spec fn spec_mkdir_args(body: Seq<u8>) -> Option<(MkdirIn, Seq<u8>)> {
    if body.len() < 8 {
        None
    } else {
        let args = spec_mkdirin(body);
        match spec_cstr(body.subrange(8, body.len() as int)) {
            Some(name) => Some((args, name)),
            None => None,
        }
    }
}

/// Read the arguments of a MkDir request.
pub fn mkdir_args(body: &[u8]) -> (r: Option<(MkdirIn, &[u8])>)
    ensures
        r is None <==> spec_mkdir_args(body@) is None,
        r is Some ==> ({ let (args, name) = r->Some_0; spec_mkdir_args(body@) == Some((args, name@)) }),
{
    if body.len() < 8 {
        return None;
    }
    let args = read_mkdirin(body);
    let rest = vstd::slice::slice_subrange(body, 8, body.len());
    match cstr(rest) {
        Some((name, _)) => Some((args, name)),
        None => None,
    }
}

/// The arguments of a Unlink request in `body`; `None` when they cannot be read.
pub open spec fn spec_unlink_args(body: Seq<u8>) -> Option<Seq<u8>> {
    {
        match spec_cstr(body) {
            Some(name) => Some(name),
            None => None,
        }
    }
}

/// Read the arguments of a Unlink request.
pub fn unlink_args(body: &[u8]) -> (r: Option<&[u8]>)
    ensures
        r is None <==> spec_unlink_args(body@) is None,
        r matches Some(name) ==> spec_unlink_args(body@) == Some(name@),
{
    let rest = body;
    match cstr(rest) {
        Some((name, _)) => Some(name),
        None => None,
    }
}

/// The arguments of a RmDir request in `body`; `None` when they cannot be read.
pub open spec fn spec_rmdir_args(body: Seq<u8>) -> Option<Seq<u8>> {
    {
        match spec_cstr(body) {
            Some(name) => Some(name),
            None => None,
        }
    }
}

/// Read the arguments of a RmDir request.
pub fn rmdir_args(body: &[u8]) -> (r: Option<&[u8]>)
    ensures
        r is None <==> spec_rmdir_args(body@) is None,
        r matches Some(name) ==> spec_rmdir_args(body@) == Some(name@),
{
    let rest = body;
    match cstr(rest) {
        Some((name, _)) => Some(name),
        None => None,
    }
}

/// The arguments of a Rename request in `body`; `None` when they cannot be read.
pub open spec fn spec_rename_args(body: Seq<u8>) -> Option<(RenameIn, Seq<u8>, Seq<u8>)> {
    if body.len() < 8 {
        None
    } else {
        let args = RenameIn { newdir: spec_read_u64(body, 0), flags: 0, padding: 0 };
        let rest = body.subrange(8, body.len() as int);
        match spec_cstr(rest) {
            Some(first) => match spec_cstr(spec_after_cstr(rest)) {
                Some(second) => Some((args, first, second)),
                None => None,
            },
            None => None,
        }
    }
}

/// Read the arguments of a Rename request.
pub fn rename_args(body: &[u8]) -> (r: Option<(RenameIn, &[u8], &[u8])>)
    ensures
        r is None <==> spec_rename_args(body@) is None,
        r is Some ==> ({ let (args, name, newname) = r->Some_0; spec_rename_args(body@) == Some((args, name@, newname@)) }),
{
    if body.len() < 8 {
        return None;
    }
    let args = RenameIn { newdir: read_u64(body, 0), flags: 0, padding: 0 };
    let rest = vstd::slice::slice_subrange(body, 8, body.len());
    match cstr(rest) {
        Some((first, after)) => match cstr(after) {
            Some((second, _)) => Some((args, first, second)),
            None => None,
        },
        None => None,
    }
}

/// The arguments of a Rename2 request in `body`; `None` when they cannot be read.
pub open spec fn spec_rename2_args(body: Seq<u8>) -> Option<(RenameIn, Seq<u8>, Seq<u8>)> {
    if body.len() < 16 {
        None
    } else {
        let args = spec_renamein(body);
        let rest = body.subrange(16, body.len() as int);
        match spec_cstr(rest) {
            Some(first) => match spec_cstr(spec_after_cstr(rest)) {
                Some(second) => Some((args, first, second)),
                None => None,
            },
            None => None,
        }
    }
}

/// Read the arguments of a Rename2 request.
pub fn rename2_args(body: &[u8]) -> (r: Option<(RenameIn, &[u8], &[u8])>)
    ensures
        r is None <==> spec_rename2_args(body@) is None,
        r is Some ==> ({ let (args, name, newname) = r->Some_0; spec_rename2_args(body@) == Some((args, name@, newname@)) }),
{
    if body.len() < 16 {
        return None;
    }
    let args = read_renamein(body);
    let rest = vstd::slice::slice_subrange(body, 16, body.len());
    match cstr(rest) {
        Some((first, after)) => match cstr(after) {
            Some((second, _)) => Some((args, first, second)),
            None => None,
        },
        None => None,
    }
}

/// The arguments of a Link request in `body`; `None` when they cannot be read.
pub open spec fn spec_link_args(body: Seq<u8>) -> Option<(LinkIn, Seq<u8>)> {
    if body.len() < 8 {
        None
    } else {
        let args = spec_linkin(body);
        match spec_cstr(body.subrange(8, body.len() as int)) {
            Some(name) => Some((args, name)),
            None => None,
        }
    }
}

/// Read the arguments of a Link request.
pub fn link_args(body: &[u8]) -> (r: Option<(LinkIn, &[u8])>)
    ensures
        r is None <==> spec_link_args(body@) is None,
        r is Some ==> ({ let (args, name) = r->Some_0; spec_link_args(body@) == Some((args, name@)) }),
{
    if body.len() < 8 {
        return None;
    }
    let args = read_linkin(body);
    let rest = vstd::slice::slice_subrange(body, 8, body.len());
    match cstr(rest) {
        Some((name, _)) => Some((args, name)),
        None => None,
    }
}

/// The arguments of a Open request in `body`; `None` when they cannot be read.
pub open spec fn spec_open_args(body: Seq<u8>) -> Option<OpenIn> {
    if body.len() < 8 {
        None
    } else {
        let args = spec_openin(body);
        Some(args)
    }
}

/// Read the arguments of a Open request.
pub fn open_args(body: &[u8]) -> (r: Option<OpenIn>)
    ensures
        r is None <==> spec_open_args(body@) is None,
        r matches Some(args) ==> spec_open_args(body@) == Some(args),
{
    if body.len() < 8 {
        return None;
    }
    let args = read_openin(body);
    let rest = vstd::slice::slice_subrange(body, 8, body.len());
    Some(args)
}

/// The arguments of a Read request in `body`; `None` when they cannot be read.
pub open spec fn spec_read_args(body: Seq<u8>) -> Option<ReadIn> {
    if body.len() < 40 {
        None
    } else {
        let args = spec_readin(body);
        Some(args)
    }
}

/// Read the arguments of a Read request.
pub fn read_args(body: &[u8]) -> (r: Option<ReadIn>)
    ensures
        r is None <==> spec_read_args(body@) is None,
        r matches Some(args) ==> spec_read_args(body@) == Some(args),
{
    if body.len() < 40 {
        return None;
    }
    let args = read_readin(body);
    let rest = vstd::slice::slice_subrange(body, 40, body.len());
    Some(args)
}

/// The arguments of a Write request in `body`; `None` when they cannot be read.
pub open spec fn spec_write_args(body: Seq<u8>) -> Option<(WriteIn, Seq<u8>)> {
    if body.len() < 40 {
        None
    } else {
        let args = spec_writein(body);
        let rest = body.subrange(40, body.len() as int);
        if rest.len() < args.size {
            None
        } else {
            Some((args, rest.subrange(0, args.size as int)))
        }
    }
}

/// Read the arguments of a Write request.
pub fn write_args(body: &[u8]) -> (r: Option<(WriteIn, &[u8])>)
    ensures
        r is None <==> spec_write_args(body@) is None,
        r is Some ==> ({ let (args, data) = r->Some_0; spec_write_args(body@) == Some((args, data@)) }),
{
    if body.len() < 40 {
        return None;
    }
    let args = read_writein(body);
    let rest = vstd::slice::slice_subrange(body, 40, body.len());
    let n = args.size as usize;
    if rest.len() < n {
        return None;
    }
    Some((args, vstd::slice::slice_subrange(rest, 0, n)))
}

/// The arguments of a Release request in `body`; `None` when they cannot be read.
pub open spec fn spec_release_args(body: Seq<u8>) -> Option<ReleaseIn> {
    if body.len() < 24 {
        None
    } else {
        let args = spec_releasein(body);
        Some(args)
    }
}

/// Read the arguments of a Release request.
pub fn release_args(body: &[u8]) -> (r: Option<ReleaseIn>)
    ensures
        r is None <==> spec_release_args(body@) is None,
        r matches Some(args) ==> spec_release_args(body@) == Some(args),
{
    if body.len() < 24 {
        return None;
    }
    let args = read_releasein(body);
    let rest = vstd::slice::slice_subrange(body, 24, body.len());
    Some(args)
}

/// The arguments of a FSync request in `body`; `None` when they cannot be read.
pub open spec fn spec_fsync_args(body: Seq<u8>) -> Option<FsyncIn> {
    if body.len() < 16 {
        None
    } else {
        let args = spec_fsyncin(body);
        Some(args)
    }
}

/// Read the arguments of a FSync request.
pub fn fsync_args(body: &[u8]) -> (r: Option<FsyncIn>)
    ensures
        r is None <==> spec_fsync_args(body@) is None,
        r matches Some(args) ==> spec_fsync_args(body@) == Some(args),
{
    if body.len() < 16 {
        return None;
    }
    let args = read_fsyncin(body);
    let rest = vstd::slice::slice_subrange(body, 16, body.len());
    Some(args)
}

/// The arguments of a SetXAttr request in `body`; `None` when they cannot be read.
pub open spec fn spec_setxattr_args(body: Seq<u8>) -> Option<(SetxattrIn, Seq<u8>, Seq<u8>)> {
    if body.len() < 8 {
        None
    } else {
        let args = spec_setxattrin(body);
        let rest = body.subrange(8, body.len() as int);
        match spec_cstr(rest) {
            Some(name) => if spec_after_cstr(rest).len() < args.size {
                None
            } else {
                Some((args, name, spec_after_cstr(rest).subrange(0, args.size as int)))
            },
            None => None,
        }
    }
}

/// Read the arguments of a SetXAttr request.
pub fn setxattr_args(body: &[u8]) -> (r: Option<(SetxattrIn, &[u8], &[u8])>)
    ensures
        r is None <==> spec_setxattr_args(body@) is None,
        r is Some ==> ({ let (args, name, value) = r->Some_0; spec_setxattr_args(body@) == Some((args, name@, value@)) }),
{
    if body.len() < 8 {
        return None;
    }
    let args = read_setxattrin(body);
    let rest = vstd::slice::slice_subrange(body, 8, body.len());
    match cstr(rest) {
        Some((name, after)) => {
            let n = args.size as usize;
            if after.len() < n {
                return None;
            }
            Some((args, name, vstd::slice::slice_subrange(after, 0, n)))
        },
        None => None,
    }
}

/// The arguments of a GetXAttr request in `body`; `None` when they cannot be read.
pub open spec fn spec_getxattr_args(body: Seq<u8>) -> Option<(GetxattrIn, Seq<u8>)> {
    if body.len() < 8 {
        None
    } else {
        let args = spec_getxattrin(body);
        match spec_cstr(body.subrange(8, body.len() as int)) {
            Some(name) => Some((args, name)),
            None => None,
        }
    }
}

/// Read the arguments of a GetXAttr request.
pub fn getxattr_args(body: &[u8]) -> (r: Option<(GetxattrIn, &[u8])>)
    ensures
        r is None <==> spec_getxattr_args(body@) is None,
        r is Some ==> ({ let (args, name) = r->Some_0; spec_getxattr_args(body@) == Some((args, name@)) }),
{
    if body.len() < 8 {
        return None;
    }
    let args = read_getxattrin(body);
    let rest = vstd::slice::slice_subrange(body, 8, body.len());
    match cstr(rest) {
        Some((name, _)) => Some((args, name)),
        None => None,
    }
}

/// The arguments of a ListXAttr request in `body`; `None` when they cannot be read.
pub open spec fn spec_listxattr_args(body: Seq<u8>) -> Option<GetxattrIn> {
    if body.len() < 8 {
        None
    } else {
        let args = spec_getxattrin(body);
        Some(args)
    }
}

/// Read the arguments of a ListXAttr request.
pub fn listxattr_args(body: &[u8]) -> (r: Option<GetxattrIn>)
    ensures
        r is None <==> spec_listxattr_args(body@) is None,
        r matches Some(args) ==> spec_listxattr_args(body@) == Some(args),
{
    if body.len() < 8 {
        return None;
    }
    let args = read_getxattrin(body);
    let rest = vstd::slice::slice_subrange(body, 8, body.len());
    Some(args)
}

/// The arguments of a RemoveXAttr request in `body`; `None` when they cannot be read.
pub open spec fn spec_removexattr_args(body: Seq<u8>) -> Option<Seq<u8>> {
    {
        match spec_cstr(body) {
            Some(name) => Some(name),
            None => None,
        }
    }
}

/// Read the arguments of a RemoveXAttr request.
pub fn removexattr_args(body: &[u8]) -> (r: Option<&[u8]>)
    ensures
        r is None <==> spec_removexattr_args(body@) is None,
        r matches Some(name) ==> spec_removexattr_args(body@) == Some(name@),
{
    let rest = body;
    match cstr(rest) {
        Some((name, _)) => Some(name),
        None => None,
    }
}

/// The arguments of a Flush request in `body`; `None` when they cannot be read.
pub open spec fn spec_flush_args(body: Seq<u8>) -> Option<FlushIn> {
    if body.len() < 24 {
        None
    } else {
        let args = spec_flushin(body);
        Some(args)
    }
}

/// Read the arguments of a Flush request.
pub fn flush_args(body: &[u8]) -> (r: Option<FlushIn>)
    ensures
        r is None <==> spec_flush_args(body@) is None,
        r matches Some(args) ==> spec_flush_args(body@) == Some(args),
{
    if body.len() < 24 {
        return None;
    }
    let args = read_flushin(body);
    let rest = vstd::slice::slice_subrange(body, 24, body.len());
    Some(args)
}

/// The arguments of a OpenDir request in `body`; `None` when they cannot be read.
pub open spec fn spec_opendir_args(body: Seq<u8>) -> Option<OpenIn> {
    if body.len() < 8 {
        None
    } else {
        let args = spec_openin(body);
        Some(args)
    }
}

/// Read the arguments of a OpenDir request.
pub fn opendir_args(body: &[u8]) -> (r: Option<OpenIn>)
    ensures
        r is None <==> spec_opendir_args(body@) is None,
        r matches Some(args) ==> spec_opendir_args(body@) == Some(args),
{
    if body.len() < 8 {
        return None;
    }
    let args = read_openin(body);
    let rest = vstd::slice::slice_subrange(body, 8, body.len());
    Some(args)
}

/// The arguments of a ReadDir request in `body`; `None` when they cannot be read.
pub open spec fn spec_readdir_args(body: Seq<u8>) -> Option<ReadIn> {
    if body.len() < 40 {
        None
    } else {
        let args = spec_readin(body);
        Some(args)
    }
}

/// Read the arguments of a ReadDir request.
pub fn readdir_args(body: &[u8]) -> (r: Option<ReadIn>)
    ensures
        r is None <==> spec_readdir_args(body@) is None,
        r matches Some(args) ==> spec_readdir_args(body@) == Some(args),
{
    if body.len() < 40 {
        return None;
    }
    let args = read_readin(body);
    let rest = vstd::slice::slice_subrange(body, 40, body.len());
    Some(args)
}

/// The arguments of a ReleaseDir request in `body`; `None` when they cannot be read.
pub open spec fn spec_releasedir_args(body: Seq<u8>) -> Option<ReleaseIn> {
    if body.len() < 24 {
        None
    } else {
        let args = spec_releasein(body);
        Some(args)
    }
}

/// Read the arguments of a ReleaseDir request.
pub fn releasedir_args(body: &[u8]) -> (r: Option<ReleaseIn>)
    ensures
        r is None <==> spec_releasedir_args(body@) is None,
        r matches Some(args) ==> spec_releasedir_args(body@) == Some(args),
{
    if body.len() < 24 {
        return None;
    }
    let args = read_releasein(body);
    let rest = vstd::slice::slice_subrange(body, 24, body.len());
    Some(args)
}

/// The arguments of a FSyncDir request in `body`; `None` when they cannot be read.
pub open spec fn spec_fsyncdir_args(body: Seq<u8>) -> Option<FsyncIn> {
    if body.len() < 16 {
        None
    } else {
        let args = spec_fsyncin(body);
        Some(args)
    }
}

/// Read the arguments of a FSyncDir request.
pub fn fsyncdir_args(body: &[u8]) -> (r: Option<FsyncIn>)
    ensures
        r is None <==> spec_fsyncdir_args(body@) is None,
        r matches Some(args) ==> spec_fsyncdir_args(body@) == Some(args),
{
    if body.len() < 16 {
        return None;
    }
    let args = read_fsyncin(body);
    let rest = vstd::slice::slice_subrange(body, 16, body.len());
    Some(args)
}

/// The arguments of a GetLk request in `body`; `None` when they cannot be read.
pub open spec fn spec_getlk_args(body: Seq<u8>) -> Option<LkIn> {
    if body.len() < 48 {
        None
    } else {
        let args = spec_lkin(body);
        Some(args)
    }
}

/// Read the arguments of a GetLk request.
pub fn getlk_args(body: &[u8]) -> (r: Option<LkIn>)
    ensures
        r is None <==> spec_getlk_args(body@) is None,
        r matches Some(args) ==> spec_getlk_args(body@) == Some(args),
{
    if body.len() < 48 {
        return None;
    }
    let args = read_lkin(body);
    let rest = vstd::slice::slice_subrange(body, 48, body.len());
    Some(args)
}

/// The arguments of a SetLk request in `body`; `None` when they cannot be read.
pub open spec fn spec_setlk_args(body: Seq<u8>) -> Option<LkIn> {
    if body.len() < 48 {
        None
    } else {
        let args = spec_lkin(body);
        Some(args)
    }
}

/// Read the arguments of a SetLk request.
pub fn setlk_args(body: &[u8]) -> (r: Option<LkIn>)
    ensures
        r is None <==> spec_setlk_args(body@) is None,
        r matches Some(args) ==> spec_setlk_args(body@) == Some(args),
{
    if body.len() < 48 {
        return None;
    }
    let args = read_lkin(body);
    let rest = vstd::slice::slice_subrange(body, 48, body.len());
    Some(args)
}

/// The arguments of a SetLkW request in `body`; `None` when they cannot be read.
pub open spec fn spec_setlkw_args(body: Seq<u8>) -> Option<LkIn> {
    if body.len() < 48 {
        None
    } else {
        let args = spec_lkin(body);
        Some(args)
    }
}

/// Read the arguments of a SetLkW request.
pub fn setlkw_args(body: &[u8]) -> (r: Option<LkIn>)
    ensures
        r is None <==> spec_setlkw_args(body@) is None,
        r matches Some(args) ==> spec_setlkw_args(body@) == Some(args),
{
    if body.len() < 48 {
        return None;
    }
    let args = read_lkin(body);
    let rest = vstd::slice::slice_subrange(body, 48, body.len());
    Some(args)
}

/// The arguments of a Access request in `body`; `None` when they cannot be read.
pub open spec fn spec_access_args(body: Seq<u8>) -> Option<AccessIn> {
    if body.len() < 8 {
        None
    } else {
        let args = spec_accessin(body);
        Some(args)
    }
}

/// Read the arguments of a Access request.
pub fn access_args(body: &[u8]) -> (r: Option<AccessIn>)
    ensures
        r is None <==> spec_access_args(body@) is None,
        r matches Some(args) ==> spec_access_args(body@) == Some(args),
{
    if body.len() < 8 {
        return None;
    }
    let args = read_accessin(body);
    let rest = vstd::slice::slice_subrange(body, 8, body.len());
    Some(args)
}

/// The arguments of a Create request in `body`; `None` when they cannot be read.
pub open spec fn spec_create_args(body: Seq<u8>) -> Option<(CreateIn, Seq<u8>)> {
    if body.len() < 16 {
        None
    } else {
        let args = spec_createin(body);
        match spec_cstr(body.subrange(16, body.len() as int)) {
            Some(name) => Some((args, name)),
            None => None,
        }
    }
}

/// Read the arguments of a Create request.
pub fn create_args(body: &[u8]) -> (r: Option<(CreateIn, &[u8])>)
    ensures
        r is None <==> spec_create_args(body@) is None,
        r is Some ==> ({ let (args, name) = r->Some_0; spec_create_args(body@) == Some((args, name@)) }),
{
    if body.len() < 16 {
        return None;
    }
    let args = read_createin(body);
    let rest = vstd::slice::slice_subrange(body, 16, body.len());
    match cstr(rest) {
        Some((name, _)) => Some((args, name)),
        None => None,
    }
}

/// The arguments of a BMap request in `body`; `None` when they cannot be read.
pub open spec fn spec_bmap_args(body: Seq<u8>) -> Option<BmapIn> {
    if body.len() < 16 {
        None
    } else {
        let args = spec_bmapin(body);
        Some(args)
    }
}

/// Read the arguments of a BMap request.
pub fn bmap_args(body: &[u8]) -> (r: Option<BmapIn>)
    ensures
        r is None <==> spec_bmap_args(body@) is None,
        r matches Some(args) ==> spec_bmap_args(body@) == Some(args),
{
    if body.len() < 16 {
        return None;
    }
    let args = read_bmapin(body);
    let rest = vstd::slice::slice_subrange(body, 16, body.len());
    Some(args)
}

/// The arguments of a IoCtl request in `body`; `None` when they cannot be read.
pub open spec fn spec_ioctl_args(body: Seq<u8>) -> Option<(IoctlIn, Seq<u8>)> {
    if body.len() < 32 {
        None
    } else {
        let args = spec_ioctlin(body);
        let rest = body.subrange(32, body.len() as int);
        if rest.len() < args.in_size {
            None
        } else {
            Some((args, rest.subrange(0, args.in_size as int)))
        }
    }
}

/// Read the arguments of a IoCtl request.
pub fn ioctl_args(body: &[u8]) -> (r: Option<(IoctlIn, &[u8])>)
    ensures
        r is None <==> spec_ioctl_args(body@) is None,
        r is Some ==> ({ let (args, data) = r->Some_0; spec_ioctl_args(body@) == Some((args, data@)) }),
{
    if body.len() < 32 {
        return None;
    }
    let args = read_ioctlin(body);
    let rest = vstd::slice::slice_subrange(body, 32, body.len());
    let n = args.in_size as usize;
    if rest.len() < n {
        return None;
    }
    Some((args, vstd::slice::slice_subrange(rest, 0, n)))
}

/// The arguments of a Poll request in `body`; `None` when they cannot be read.
pub open spec fn spec_poll_args(body: Seq<u8>) -> Option<PollIn> {
    if body.len() < 24 {
        None
    } else {
        let args = spec_pollin(body);
        Some(args)
    }
}

/// Read the arguments of a Poll request.
pub fn poll_args(body: &[u8]) -> (r: Option<PollIn>)
    ensures
        r is None <==> spec_poll_args(body@) is None,
        r matches Some(args) ==> spec_poll_args(body@) == Some(args),
{
    if body.len() < 24 {
        return None;
    }
    let args = read_pollin(body);
    let rest = vstd::slice::slice_subrange(body, 24, body.len());
    Some(args)
}

/// The arguments of a FAllocate request in `body`; `None` when they cannot be read.
pub open spec fn spec_fallocate_args(body: Seq<u8>) -> Option<FallocateIn> {
    if body.len() < 32 {
        None
    } else {
        let args = spec_fallocatein(body);
        Some(args)
    }
}

/// Read the arguments of a FAllocate request.
pub fn fallocate_args(body: &[u8]) -> (r: Option<FallocateIn>)
    ensures
        r is None <==> spec_fallocate_args(body@) is None,
        r matches Some(args) ==> spec_fallocate_args(body@) == Some(args),
{
    if body.len() < 32 {
        return None;
    }
    let args = read_fallocatein(body);
    let rest = vstd::slice::slice_subrange(body, 32, body.len());
    Some(args)
}

/// The arguments of a ReadDirPlus request in `body`; `None` when they cannot be read.
pub open spec fn spec_readdirplus_args(body: Seq<u8>) -> Option<ReadIn> {
    if body.len() < 40 {
        None
    } else {
        let args = spec_readin(body);
        Some(args)
    }
}

/// Read the arguments of a ReadDirPlus request.
pub fn readdirplus_args(body: &[u8]) -> (r: Option<ReadIn>)
    ensures
        r is None <==> spec_readdirplus_args(body@) is None,
        r matches Some(args) ==> spec_readdirplus_args(body@) == Some(args),
{
    if body.len() < 40 {
        return None;
    }
    let args = read_readin(body);
    let rest = vstd::slice::slice_subrange(body, 40, body.len());
    Some(args)
}

/// The arguments of a Lseek request in `body`; `None` when they cannot be read.
pub open spec fn spec_lseek_args(body: Seq<u8>) -> Option<LseekIn> {
    if body.len() < 24 {
        None
    } else {
        let args = spec_lseekin(body);
        Some(args)
    }
}

/// Read the arguments of a Lseek request.
pub fn lseek_args(body: &[u8]) -> (r: Option<LseekIn>)
    ensures
        r is None <==> spec_lseek_args(body@) is None,
        r matches Some(args) ==> spec_lseek_args(body@) == Some(args),
{
    if body.len() < 24 {
        return None;
    }
    let args = read_lseekin(body);
    let rest = vstd::slice::slice_subrange(body, 24, body.len());
    Some(args)
}

/// The arguments of a CopyFileRange request in `body`; `None` when they cannot be read.
pub open spec fn spec_copy_file_range_args(body: Seq<u8>) -> Option<CopyFileRangeIn> {
    if body.len() < 56 {
        None
    } else {
        let args = spec_copyfilerangein(body);
        Some(args)
    }
}

/// Read the arguments of a CopyFileRange request.
pub fn copy_file_range_args(body: &[u8]) -> (r: Option<CopyFileRangeIn>)
    ensures
        r is None <==> spec_copy_file_range_args(body@) is None,
        r matches Some(args) ==> spec_copy_file_range_args(body@) == Some(args),
{
    if body.len() < 56 {
        return None;
    }
    let args = read_copyfilerangein(body);
    let rest = vstd::slice::slice_subrange(body, 56, body.len());
    Some(args)
}

/// The arguments of a SetVolName request in `body`; `None` when they cannot be read.
pub open spec fn spec_setvolname_args(body: Seq<u8>) -> Option<Seq<u8>> {
    {
        match spec_cstr(body) {
            Some(name) => Some(name),
            None => None,
        }
    }
}

/// Read the arguments of a SetVolName request.
pub fn setvolname_args(body: &[u8]) -> (r: Option<&[u8]>)
    ensures
        r is None <==> spec_setvolname_args(body@) is None,
        r matches Some(name) ==> spec_setvolname_args(body@) == Some(name@),
{
    let rest = body;
    match cstr(rest) {
        Some((name, _)) => Some(name),
        None => None,
    }
}

/// The arguments of a Exchange request in `body`; `None` when they cannot be read.
pub open spec fn spec_exchange_args(body: Seq<u8>) -> Option<(ExchangeIn, Seq<u8>, Seq<u8>)> {
    if body.len() < 24 {
        None
    } else {
        let args = spec_exchangein(body);
        let rest = body.subrange(24, body.len() as int);
        match spec_cstr(rest) {
            Some(first) => match spec_cstr(spec_after_cstr(rest)) {
                Some(second) => Some((args, first, second)),
                None => None,
            },
            None => None,
        }
    }
}

/// Read the arguments of a Exchange request.
pub fn exchange_args(body: &[u8]) -> (r: Option<(ExchangeIn, &[u8], &[u8])>)
    ensures
        r is None <==> spec_exchange_args(body@) is None,
        r is Some ==> ({ let (args, name, newname) = r->Some_0; spec_exchange_args(body@) == Some((args, name@, newname@)) }),
{
    if body.len() < 24 {
        return None;
    }
    let args = read_exchangein(body);
    let rest = vstd::slice::slice_subrange(body, 24, body.len());
    match cstr(rest) {
        Some((first, after)) => match cstr(after) {
            Some((second, _)) => Some((args, first, second)),
            None => None,
        },
        None => None,
    }
}

/// A sequence holding a zero byte has a first one: the zero byte that
/// `spec_first_zero` picks exists, with no zero byte before it.
pub proof fn law_first_zero_is_first(s: Seq<u8>)
    requires
        spec_has_zero(s),
    ensures
        0 <= spec_first_zero(s) < s.len(),
        s[spec_first_zero(s)] == 0,
        forall|j: int| 0 <= j < spec_first_zero(s) ==> s[j] != 0,
    decreases s.len(),
{
    if s[0] == 0 {
        assert(0 <= 0 < s.len() && s[0] == 0 && forall|j: int| 0 <= j < 0 ==> s[j] != 0);
    } else {
        let t = s.drop_first();
        let w = choose|k: int| 0 <= k < s.len() && s[k] == 0;
        assert(t[w - 1] == 0);
        law_first_zero_is_first(t);
        let k = spec_first_zero(t);
        assert(0 <= k + 1 < s.len() && s[k + 1] == 0 && forall|j: int| 0 <= j < k + 1 ==> s[j] != 0) by {
            assert forall|j: int| 0 <= j < k + 1 implies s[j] != 0 by {
                if j > 0 {
                    assert(s[j] == t[j - 1]);
                }
            }
        }
    }
}

/// What follows the zero-terminated name at the start of `s` is what comes after the
/// name's terminating zero byte.
pub proof fn law_after_cstr_follows_name(s: Seq<u8>)
    requires
        spec_cstr(s) is Some,
    ensures
        spec_cstr(s)->0.len() < s.len(),
        spec_after_cstr(s) == s.subrange(spec_cstr(s)->0.len() as int + 1, s.len() as int),
{
    law_first_zero_is_first(s);
    assert(spec_cstr(s)->0.len() == spec_first_zero(s));
}

/// The zero-terminated name at the start of `s` is the bytes up to its first zero
/// byte: none of them zero, and a zero byte right after them.
pub proof fn law_cstr_is_bytes_before_first_zero(s: Seq<u8>)
    requires
        spec_cstr(s) is Some,
    ensures
        ({
            let name = spec_cstr(s)->0;
            &&& name.len() < s.len()
            &&& s.subrange(0, name.len() as int) == name
            &&& s[name.len() as int] == 0
            &&& forall|j: int| 0 <= j < name.len() ==> name[j] != 0
        }),
{
    law_first_zero_is_first(s);
}

/// The arguments of a Lookup request are read from the start of the body, and the name
/// after it is the bytes up to the first zero byte.
pub proof fn law_lookup_args_layout(body: Seq<u8>)
    requires
        spec_lookup_args(body) is Some,
    ensures
        spec_lookup_args(body)->0.len() < body.len() - 0,
        body.subrange(0, 0 + spec_lookup_args(body)->0.len() as int) == spec_lookup_args(body)->0,
        body[0 + spec_lookup_args(body)->0.len() as int] == 0,
        forall|j: int| 0 <= j < spec_lookup_args(body)->0.len() ==> spec_lookup_args(body)->0[j] != 0,
{
    let rest = body;
    law_cstr_is_bytes_before_first_zero(rest);
    let name = spec_cstr(rest)->0;
    assert(body.subrange(0, 0 + name.len() as int) =~= rest.subrange(0, name.len() as int));
    assert(body[0 + name.len() as int] == rest[name.len() as int]);
}

/// The arguments of a GetAttr request are read from the `fuse_getattr_in` at its fixed
/// offsets.
pub proof fn law_getattr_args_layout(body: Seq<u8>)
    requires
        spec_getattr_args(body) is Some,
    ensures
        spec_getattr_args(body)->0.getattr_flags == spec_read_u32(body, 0),
        spec_getattr_args(body)->0.dummy == spec_read_u32(body, 4),
        spec_getattr_args(body)->0.fh == spec_read_u64(body, 8),
{

}

/// The arguments of a SetAttr request are read from the `fuse_setattr_in` at its fixed
/// offsets.
pub proof fn law_setattr_args_layout(body: Seq<u8>)
    requires
        spec_setattr_args(body) is Some,
    ensures
        spec_setattr_args(body)->0.valid == spec_read_u32(body, 0),
        spec_setattr_args(body)->0.padding == spec_read_u32(body, 4),
        spec_setattr_args(body)->0.fh == spec_read_u64(body, 8),
        spec_setattr_args(body)->0.size == spec_read_u64(body, 16),
        spec_setattr_args(body)->0.lock_owner == spec_read_u64(body, 24),
        spec_setattr_args(body)->0.atime == spec_read_u64(body, 32),
        spec_setattr_args(body)->0.mtime == spec_read_u64(body, 40),
        spec_setattr_args(body)->0.ctime == spec_read_u64(body, 48),
        spec_setattr_args(body)->0.atimensec == spec_read_u32(body, 56),
        spec_setattr_args(body)->0.mtimensec == spec_read_u32(body, 60),
        spec_setattr_args(body)->0.ctimensec == spec_read_u32(body, 64),
        spec_setattr_args(body)->0.mode == spec_read_u32(body, 68),
        spec_setattr_args(body)->0.unused4 == spec_read_u32(body, 72),
        spec_setattr_args(body)->0.uid == spec_read_u32(body, 76),
        spec_setattr_args(body)->0.gid == spec_read_u32(body, 80),
        spec_setattr_args(body)->0.unused5 == spec_read_u32(body, 84),
{

}

/// The arguments of a SymLink request are read from the start of the body, and the two
/// names after it are the bytes up to the first zero byte and those from there up to
/// the next.
#[verifier::spinoff_prover]
#[verifier::rlimit(40)]
pub proof fn law_symlink_args_layout(body: Seq<u8>)
    requires
        spec_symlink_args(body) is Some,
    ensures
        (spec_symlink_args(body)->0).0.len() < body.len() - 0,
        body.subrange(0, 0 + (spec_symlink_args(body)->0).0.len() as int) == (spec_symlink_args(body)->0).0,
        body[0 + (spec_symlink_args(body)->0).0.len() as int] == 0,
        forall|j: int| 0 <= j < (spec_symlink_args(body)->0).0.len() ==> (spec_symlink_args(body)->0).0[j] != 0,
        body.subrange(0 + (spec_symlink_args(body)->0).0.len() as int + 1, 0 + (spec_symlink_args(body)->0).0.len() as int + 1 + (spec_symlink_args(body)->0).1.len()) == (spec_symlink_args(body)->0).1,
        body[0 + (spec_symlink_args(body)->0).0.len() as int + 1 + (spec_symlink_args(body)->0).1.len()] == 0,
        forall|j: int| 0 <= j < (spec_symlink_args(body)->0).1.len() ==> (spec_symlink_args(body)->0).1[j] != 0,
{
    let rest = body;
    law_cstr_is_bytes_before_first_zero(rest);
    let name = spec_cstr(rest)->0;
    assert(body.subrange(0, 0 + name.len() as int) =~= rest.subrange(0, name.len() as int));
    assert(body[0 + name.len() as int] == rest[name.len() as int]);
    law_after_cstr_follows_name(rest);
    let rest2 = spec_after_cstr(rest);
    assert(rest2 =~= body.subrange(0 + name.len() as int + 1, body.len() as int));
    law_cstr_is_bytes_before_first_zero(rest2);
    let second = spec_cstr(rest2)->0;
    assert(body.subrange(0 + name.len() as int + 1, 0 + name.len() as int + 1 + second.len()) =~= rest2.subrange(0, second.len() as int));
    assert(body[0 + name.len() as int + 1 + second.len()] == rest2[second.len() as int]);
}

/// The arguments of a MkNod request are read from the `fuse_mknod_in` at its fixed
/// offsets, and the name after it is the bytes up to the first zero byte.
pub proof fn law_mknod_args_layout(body: Seq<u8>)
    requires
        spec_mknod_args(body) is Some,
    ensures
        (spec_mknod_args(body)->0).0.mode == spec_read_u32(body, 0),
        (spec_mknod_args(body)->0).0.rdev == spec_read_u32(body, 4),
        (spec_mknod_args(body)->0).0.umask == spec_read_u32(body, 8),
        (spec_mknod_args(body)->0).0.padding == spec_read_u32(body, 12),
        (spec_mknod_args(body)->0).1.len() < body.len() - 16,
        body.subrange(16, 16 + (spec_mknod_args(body)->0).1.len() as int) == (spec_mknod_args(body)->0).1,
        body[16 + (spec_mknod_args(body)->0).1.len() as int] == 0,
        forall|j: int| 0 <= j < (spec_mknod_args(body)->0).1.len() ==> (spec_mknod_args(body)->0).1[j] != 0,
{
    let rest = body.subrange(16, body.len() as int);
    law_cstr_is_bytes_before_first_zero(rest);
    let name = spec_cstr(rest)->0;
    assert(body.subrange(16, 16 + name.len() as int) =~= rest.subrange(0, name.len() as int));
    assert(body[16 + name.len() as int] == rest[name.len() as int]);
}

/// The arguments of a MkDir request are read from the `fuse_mkdir_in` at its fixed
/// offsets, and the name after it is the bytes up to the first zero byte.
pub proof fn law_mkdir_args_layout(body: Seq<u8>)
    requires
        spec_mkdir_args(body) is Some,
    ensures
        (spec_mkdir_args(body)->0).0.mode == spec_read_u32(body, 0),
        (spec_mkdir_args(body)->0).0.umask == spec_read_u32(body, 4),
        (spec_mkdir_args(body)->0).1.len() < body.len() - 8,
        body.subrange(8, 8 + (spec_mkdir_args(body)->0).1.len() as int) == (spec_mkdir_args(body)->0).1,
        body[8 + (spec_mkdir_args(body)->0).1.len() as int] == 0,
        forall|j: int| 0 <= j < (spec_mkdir_args(body)->0).1.len() ==> (spec_mkdir_args(body)->0).1[j] != 0,
{
    let rest = body.subrange(8, body.len() as int);
    law_cstr_is_bytes_before_first_zero(rest);
    let name = spec_cstr(rest)->0;
    assert(body.subrange(8, 8 + name.len() as int) =~= rest.subrange(0, name.len() as int));
    assert(body[8 + name.len() as int] == rest[name.len() as int]);
}

/// The arguments of a Unlink request are read from the start of the body, and the name
/// after it is the bytes up to the first zero byte.
pub proof fn law_unlink_args_layout(body: Seq<u8>)
    requires
        spec_unlink_args(body) is Some,
    ensures
        spec_unlink_args(body)->0.len() < body.len() - 0,
        body.subrange(0, 0 + spec_unlink_args(body)->0.len() as int) == spec_unlink_args(body)->0,
        body[0 + spec_unlink_args(body)->0.len() as int] == 0,
        forall|j: int| 0 <= j < spec_unlink_args(body)->0.len() ==> spec_unlink_args(body)->0[j] != 0,
{
    let rest = body;
    law_cstr_is_bytes_before_first_zero(rest);
    let name = spec_cstr(rest)->0;
    assert(body.subrange(0, 0 + name.len() as int) =~= rest.subrange(0, name.len() as int));
    assert(body[0 + name.len() as int] == rest[name.len() as int]);
}

/// The arguments of a RmDir request are read from the start of the body, and the name
/// after it is the bytes up to the first zero byte.
pub proof fn law_rmdir_args_layout(body: Seq<u8>)
    requires
        spec_rmdir_args(body) is Some,
    ensures
        spec_rmdir_args(body)->0.len() < body.len() - 0,
        body.subrange(0, 0 + spec_rmdir_args(body)->0.len() as int) == spec_rmdir_args(body)->0,
        body[0 + spec_rmdir_args(body)->0.len() as int] == 0,
        forall|j: int| 0 <= j < spec_rmdir_args(body)->0.len() ==> spec_rmdir_args(body)->0[j] != 0,
{
    let rest = body;
    law_cstr_is_bytes_before_first_zero(rest);
    let name = spec_cstr(rest)->0;
    assert(body.subrange(0, 0 + name.len() as int) =~= rest.subrange(0, name.len() as int));
    assert(body[0 + name.len() as int] == rest[name.len() as int]);
}

/// The arguments of a Rename request are read from the `fuse_rename2_in` at its fixed
/// offsets, and the two names after it are the bytes up to the first zero byte and
/// those from there up to the next.
#[verifier::spinoff_prover]
#[verifier::rlimit(40)]
pub proof fn law_rename_args_layout(body: Seq<u8>)
    requires
        spec_rename_args(body) is Some,
    ensures
        (spec_rename_args(body)->0).0.newdir == spec_read_u64(body, 0),
        (spec_rename_args(body)->0).0.flags == 0,
        (spec_rename_args(body)->0).1.len() < body.len() - 8,
        body.subrange(8, 8 + (spec_rename_args(body)->0).1.len() as int) == (spec_rename_args(body)->0).1,
        body[8 + (spec_rename_args(body)->0).1.len() as int] == 0,
        forall|j: int| 0 <= j < (spec_rename_args(body)->0).1.len() ==> (spec_rename_args(body)->0).1[j] != 0,
        body.subrange(8 + (spec_rename_args(body)->0).1.len() as int + 1, 8 + (spec_rename_args(body)->0).1.len() as int + 1 + (spec_rename_args(body)->0).2.len()) == (spec_rename_args(body)->0).2,
        body[8 + (spec_rename_args(body)->0).1.len() as int + 1 + (spec_rename_args(body)->0).2.len()] == 0,
        forall|j: int| 0 <= j < (spec_rename_args(body)->0).2.len() ==> (spec_rename_args(body)->0).2[j] != 0,
{
    let rest = body.subrange(8, body.len() as int);
    law_cstr_is_bytes_before_first_zero(rest);
    let name = spec_cstr(rest)->0;
    assert(body.subrange(8, 8 + name.len() as int) =~= rest.subrange(0, name.len() as int));
    assert(body[8 + name.len() as int] == rest[name.len() as int]);
    law_after_cstr_follows_name(rest);
    let rest2 = spec_after_cstr(rest);
    assert(rest2 =~= body.subrange(8 + name.len() as int + 1, body.len() as int));
    law_cstr_is_bytes_before_first_zero(rest2);
    let second = spec_cstr(rest2)->0;
    assert(body.subrange(8 + name.len() as int + 1, 8 + name.len() as int + 1 + second.len()) =~= rest2.subrange(0, second.len() as int));
    assert(body[8 + name.len() as int + 1 + second.len()] == rest2[second.len() as int]);
}

/// The arguments of a Rename2 request are read from the `fuse_rename2_in` at its fixed
/// offsets, and the two names after it are the bytes up to the first zero byte and
/// those from there up to the next.
#[verifier::spinoff_prover]
#[verifier::rlimit(40)]
pub proof fn law_rename2_args_layout(body: Seq<u8>)
    requires
        spec_rename2_args(body) is Some,
    ensures
        (spec_rename2_args(body)->0).0.newdir == spec_read_u64(body, 0),
        (spec_rename2_args(body)->0).0.flags == spec_read_u32(body, 8),
        (spec_rename2_args(body)->0).0.padding == spec_read_u32(body, 12),
        (spec_rename2_args(body)->0).1.len() < body.len() - 16,
        body.subrange(16, 16 + (spec_rename2_args(body)->0).1.len() as int) == (spec_rename2_args(body)->0).1,
        body[16 + (spec_rename2_args(body)->0).1.len() as int] == 0,
        forall|j: int| 0 <= j < (spec_rename2_args(body)->0).1.len() ==> (spec_rename2_args(body)->0).1[j] != 0,
        body.subrange(16 + (spec_rename2_args(body)->0).1.len() as int + 1, 16 + (spec_rename2_args(body)->0).1.len() as int + 1 + (spec_rename2_args(body)->0).2.len()) == (spec_rename2_args(body)->0).2,
        body[16 + (spec_rename2_args(body)->0).1.len() as int + 1 + (spec_rename2_args(body)->0).2.len()] == 0,
        forall|j: int| 0 <= j < (spec_rename2_args(body)->0).2.len() ==> (spec_rename2_args(body)->0).2[j] != 0,
{
    let rest = body.subrange(16, body.len() as int);
    law_cstr_is_bytes_before_first_zero(rest);
    let name = spec_cstr(rest)->0;
    assert(body.subrange(16, 16 + name.len() as int) =~= rest.subrange(0, name.len() as int));
    assert(body[16 + name.len() as int] == rest[name.len() as int]);
    law_after_cstr_follows_name(rest);
    let rest2 = spec_after_cstr(rest);
    assert(rest2 =~= body.subrange(16 + name.len() as int + 1, body.len() as int));
    law_cstr_is_bytes_before_first_zero(rest2);
    let second = spec_cstr(rest2)->0;
    assert(body.subrange(16 + name.len() as int + 1, 16 + name.len() as int + 1 + second.len()) =~= rest2.subrange(0, second.len() as int));
    assert(body[16 + name.len() as int + 1 + second.len()] == rest2[second.len() as int]);
}

/// The arguments of a Link request are read from the `fuse_link_in` at its fixed
/// offsets, and the name after it is the bytes up to the first zero byte.
pub proof fn law_link_args_layout(body: Seq<u8>)
    requires
        spec_link_args(body) is Some,
    ensures
        (spec_link_args(body)->0).0.oldnodeid == spec_read_u64(body, 0),
        (spec_link_args(body)->0).1.len() < body.len() - 8,
        body.subrange(8, 8 + (spec_link_args(body)->0).1.len() as int) == (spec_link_args(body)->0).1,
        body[8 + (spec_link_args(body)->0).1.len() as int] == 0,
        forall|j: int| 0 <= j < (spec_link_args(body)->0).1.len() ==> (spec_link_args(body)->0).1[j] != 0,
{
    let rest = body.subrange(8, body.len() as int);
    law_cstr_is_bytes_before_first_zero(rest);
    let name = spec_cstr(rest)->0;
    assert(body.subrange(8, 8 + name.len() as int) =~= rest.subrange(0, name.len() as int));
    assert(body[8 + name.len() as int] == rest[name.len() as int]);
}

/// The arguments of a Open request are read from the `fuse_open_in` at its fixed
/// offsets.
pub proof fn law_open_args_layout(body: Seq<u8>)
    requires
        spec_open_args(body) is Some,
    ensures
        spec_open_args(body)->0.flags == spec_read_u32(body, 0),
        spec_open_args(body)->0.open_flags == spec_read_u32(body, 4),
{

}

/// The arguments of a Read request are read from the `fuse_read_in` at its fixed
/// offsets.
pub proof fn law_read_args_layout(body: Seq<u8>)
    requires
        spec_read_args(body) is Some,
    ensures
        spec_read_args(body)->0.fh == spec_read_u64(body, 0),
        spec_read_args(body)->0.offset == spec_read_u64(body, 8),
        spec_read_args(body)->0.size == spec_read_u32(body, 16),
        spec_read_args(body)->0.read_flags == spec_read_u32(body, 20),
        spec_read_args(body)->0.lock_owner == spec_read_u64(body, 24),
        spec_read_args(body)->0.flags == spec_read_u32(body, 32),
        spec_read_args(body)->0.padding == spec_read_u32(body, 36),
{

}

/// The arguments of a Write request are read from the `fuse_write_in` at its fixed
/// offsets, and the data after it is the `size` bytes that follow.
pub proof fn law_write_args_layout(body: Seq<u8>)
    requires
        spec_write_args(body) is Some,
    ensures
        (spec_write_args(body)->0).0.fh == spec_read_u64(body, 0),
        (spec_write_args(body)->0).0.offset == spec_read_u64(body, 8),
        (spec_write_args(body)->0).0.size == spec_read_u32(body, 16),
        (spec_write_args(body)->0).0.write_flags == spec_read_u32(body, 20),
        (spec_write_args(body)->0).0.lock_owner == spec_read_u64(body, 24),
        (spec_write_args(body)->0).0.flags == spec_read_u32(body, 32),
        (spec_write_args(body)->0).0.padding == spec_read_u32(body, 36),
        (spec_write_args(body)->0).1.len() == (spec_write_args(body)->0).0.size,
        body.subrange(40, 40 + (spec_write_args(body)->0).1.len() as int) == (spec_write_args(body)->0).1,
{
    let rest = body.subrange(40, body.len() as int);
    assert(body.subrange(40, 40 + (spec_write_args(body)->0).1.len() as int) =~= rest.subrange(0, (spec_write_args(body)->0).1.len() as int));
}

/// The arguments of a Release request are read from the `fuse_release_in` at its fixed
/// offsets.
pub proof fn law_release_args_layout(body: Seq<u8>)
    requires
        spec_release_args(body) is Some,
    ensures
        spec_release_args(body)->0.fh == spec_read_u64(body, 0),
        spec_release_args(body)->0.flags == spec_read_u32(body, 8),
        spec_release_args(body)->0.release_flags == spec_read_u32(body, 12),
        spec_release_args(body)->0.lock_owner == spec_read_u64(body, 16),
{

}

/// The arguments of a FSync request are read from the `fuse_fsync_in` at its fixed
/// offsets.
pub proof fn law_fsync_args_layout(body: Seq<u8>)
    requires
        spec_fsync_args(body) is Some,
    ensures
        spec_fsync_args(body)->0.fh == spec_read_u64(body, 0),
        spec_fsync_args(body)->0.fsync_flags == spec_read_u32(body, 8),
        spec_fsync_args(body)->0.padding == spec_read_u32(body, 12),
{

}

/// The arguments of a SetXAttr request are read from the `fuse_setxattr_in` at its
/// fixed offsets, and the name after it is the bytes up to the first zero byte, and the
/// value the `size` bytes after that.
#[verifier::spinoff_prover]
#[verifier::rlimit(40)]
pub proof fn law_setxattr_args_layout(body: Seq<u8>)
    requires
        spec_setxattr_args(body) is Some,
    ensures
        (spec_setxattr_args(body)->0).0.size == spec_read_u32(body, 0),
        (spec_setxattr_args(body)->0).0.flags == spec_read_u32(body, 4),
        (spec_setxattr_args(body)->0).1.len() < body.len() - 8,
        body.subrange(8, 8 + (spec_setxattr_args(body)->0).1.len() as int) == (spec_setxattr_args(body)->0).1,
        body[8 + (spec_setxattr_args(body)->0).1.len() as int] == 0,
        forall|j: int| 0 <= j < (spec_setxattr_args(body)->0).1.len() ==> (spec_setxattr_args(body)->0).1[j] != 0,
        (spec_setxattr_args(body)->0).2.len() == (spec_setxattr_args(body)->0).0.size,
        body.subrange(8 + (spec_setxattr_args(body)->0).1.len() as int + 1, 8 + (spec_setxattr_args(body)->0).1.len() as int + 1 + (spec_setxattr_args(body)->0).2.len()) == (spec_setxattr_args(body)->0).2,
{
    let rest = body.subrange(8, body.len() as int);
    law_cstr_is_bytes_before_first_zero(rest);
    let name = spec_cstr(rest)->0;
    assert(body.subrange(8, 8 + name.len() as int) =~= rest.subrange(0, name.len() as int));
    assert(body[8 + name.len() as int] == rest[name.len() as int]);
    law_after_cstr_follows_name(rest);
    let rest2 = spec_after_cstr(rest);
    assert(rest2 =~= body.subrange(8 + name.len() as int + 1, body.len() as int));
    let value = (spec_setxattr_args(body)->0).2;
    assert(body.subrange(8 + name.len() as int + 1, 8 + name.len() as int + 1 + value.len()) =~= rest2.subrange(0, value.len() as int));
}

/// The arguments of a GetXAttr request are read from the `fuse_getxattr_in` at its
/// fixed offsets, and the name after it is the bytes up to the first zero byte.
pub proof fn law_getxattr_args_layout(body: Seq<u8>)
    requires
        spec_getxattr_args(body) is Some,
    ensures
        (spec_getxattr_args(body)->0).0.size == spec_read_u32(body, 0),
        (spec_getxattr_args(body)->0).0.padding == spec_read_u32(body, 4),
        (spec_getxattr_args(body)->0).1.len() < body.len() - 8,
        body.subrange(8, 8 + (spec_getxattr_args(body)->0).1.len() as int) == (spec_getxattr_args(body)->0).1,
        body[8 + (spec_getxattr_args(body)->0).1.len() as int] == 0,
        forall|j: int| 0 <= j < (spec_getxattr_args(body)->0).1.len() ==> (spec_getxattr_args(body)->0).1[j] != 0,
{
    let rest = body.subrange(8, body.len() as int);
    law_cstr_is_bytes_before_first_zero(rest);
    let name = spec_cstr(rest)->0;
    assert(body.subrange(8, 8 + name.len() as int) =~= rest.subrange(0, name.len() as int));
    assert(body[8 + name.len() as int] == rest[name.len() as int]);
}

/// The arguments of a ListXAttr request are read from the `fuse_getxattr_in` at its
/// fixed offsets.
pub proof fn law_listxattr_args_layout(body: Seq<u8>)
    requires
        spec_listxattr_args(body) is Some,
    ensures
        spec_listxattr_args(body)->0.size == spec_read_u32(body, 0),
        spec_listxattr_args(body)->0.padding == spec_read_u32(body, 4),
{

}

/// The arguments of a RemoveXAttr request are read from the start of the body, and the
/// name after it is the bytes up to the first zero byte.
pub proof fn law_removexattr_args_layout(body: Seq<u8>)
    requires
        spec_removexattr_args(body) is Some,
    ensures
        spec_removexattr_args(body)->0.len() < body.len() - 0,
        body.subrange(0, 0 + spec_removexattr_args(body)->0.len() as int) == spec_removexattr_args(body)->0,
        body[0 + spec_removexattr_args(body)->0.len() as int] == 0,
        forall|j: int| 0 <= j < spec_removexattr_args(body)->0.len() ==> spec_removexattr_args(body)->0[j] != 0,
{
    let rest = body;
    law_cstr_is_bytes_before_first_zero(rest);
    let name = spec_cstr(rest)->0;
    assert(body.subrange(0, 0 + name.len() as int) =~= rest.subrange(0, name.len() as int));
    assert(body[0 + name.len() as int] == rest[name.len() as int]);
}

/// The arguments of a Flush request are read from the `fuse_flush_in` at its fixed
/// offsets.
pub proof fn law_flush_args_layout(body: Seq<u8>)
    requires
        spec_flush_args(body) is Some,
    ensures
        spec_flush_args(body)->0.fh == spec_read_u64(body, 0),
        spec_flush_args(body)->0.unused == spec_read_u32(body, 8),
        spec_flush_args(body)->0.padding == spec_read_u32(body, 12),
        spec_flush_args(body)->0.lock_owner == spec_read_u64(body, 16),
{

}

/// The arguments of a OpenDir request are read from the `fuse_open_in` at its fixed
/// offsets.
pub proof fn law_opendir_args_layout(body: Seq<u8>)
    requires
        spec_opendir_args(body) is Some,
    ensures
        spec_opendir_args(body)->0.flags == spec_read_u32(body, 0),
        spec_opendir_args(body)->0.open_flags == spec_read_u32(body, 4),
{

}

/// The arguments of a ReadDir request are read from the `fuse_read_in` at its fixed
/// offsets.
pub proof fn law_readdir_args_layout(body: Seq<u8>)
    requires
        spec_readdir_args(body) is Some,
    ensures
        spec_readdir_args(body)->0.fh == spec_read_u64(body, 0),
        spec_readdir_args(body)->0.offset == spec_read_u64(body, 8),
        spec_readdir_args(body)->0.size == spec_read_u32(body, 16),
        spec_readdir_args(body)->0.read_flags == spec_read_u32(body, 20),
        spec_readdir_args(body)->0.lock_owner == spec_read_u64(body, 24),
        spec_readdir_args(body)->0.flags == spec_read_u32(body, 32),
        spec_readdir_args(body)->0.padding == spec_read_u32(body, 36),
{

}

/// The arguments of a ReleaseDir request are read from the `fuse_release_in` at its
/// fixed offsets.
pub proof fn law_releasedir_args_layout(body: Seq<u8>)
    requires
        spec_releasedir_args(body) is Some,
    ensures
        spec_releasedir_args(body)->0.fh == spec_read_u64(body, 0),
        spec_releasedir_args(body)->0.flags == spec_read_u32(body, 8),
        spec_releasedir_args(body)->0.release_flags == spec_read_u32(body, 12),
        spec_releasedir_args(body)->0.lock_owner == spec_read_u64(body, 16),
{

}

/// The arguments of a FSyncDir request are read from the `fuse_fsync_in` at its fixed
/// offsets.
pub proof fn law_fsyncdir_args_layout(body: Seq<u8>)
    requires
        spec_fsyncdir_args(body) is Some,
    ensures
        spec_fsyncdir_args(body)->0.fh == spec_read_u64(body, 0),
        spec_fsyncdir_args(body)->0.fsync_flags == spec_read_u32(body, 8),
        spec_fsyncdir_args(body)->0.padding == spec_read_u32(body, 12),
{

}

/// The arguments of a GetLk request are read from the `fuse_lk_in` at its fixed
/// offsets.
pub proof fn law_getlk_args_layout(body: Seq<u8>)
    requires
        spec_getlk_args(body) is Some,
    ensures
        spec_getlk_args(body)->0.fh == spec_read_u64(body, 0),
        spec_getlk_args(body)->0.owner == spec_read_u64(body, 8),
        spec_getlk_args(body)->0.start == spec_read_u64(body, 16),
        spec_getlk_args(body)->0.end == spec_read_u64(body, 24),
        spec_getlk_args(body)->0.typ == spec_read_u32(body, 32),
        spec_getlk_args(body)->0.pid == spec_read_u32(body, 36),
        spec_getlk_args(body)->0.lk_flags == spec_read_u32(body, 40),
        spec_getlk_args(body)->0.padding == spec_read_u32(body, 44),
{

}

/// The arguments of a SetLk request are read from the `fuse_lk_in` at its fixed
/// offsets.
pub proof fn law_setlk_args_layout(body: Seq<u8>)
    requires
        spec_setlk_args(body) is Some,
    ensures
        spec_setlk_args(body)->0.fh == spec_read_u64(body, 0),
        spec_setlk_args(body)->0.owner == spec_read_u64(body, 8),
        spec_setlk_args(body)->0.start == spec_read_u64(body, 16),
        spec_setlk_args(body)->0.end == spec_read_u64(body, 24),
        spec_setlk_args(body)->0.typ == spec_read_u32(body, 32),
        spec_setlk_args(body)->0.pid == spec_read_u32(body, 36),
        spec_setlk_args(body)->0.lk_flags == spec_read_u32(body, 40),
        spec_setlk_args(body)->0.padding == spec_read_u32(body, 44),
{

}

/// The arguments of a SetLkW request are read from the `fuse_lk_in` at its fixed
/// offsets.
pub proof fn law_setlkw_args_layout(body: Seq<u8>)
    requires
        spec_setlkw_args(body) is Some,
    ensures
        spec_setlkw_args(body)->0.fh == spec_read_u64(body, 0),
        spec_setlkw_args(body)->0.owner == spec_read_u64(body, 8),
        spec_setlkw_args(body)->0.start == spec_read_u64(body, 16),
        spec_setlkw_args(body)->0.end == spec_read_u64(body, 24),
        spec_setlkw_args(body)->0.typ == spec_read_u32(body, 32),
        spec_setlkw_args(body)->0.pid == spec_read_u32(body, 36),
        spec_setlkw_args(body)->0.lk_flags == spec_read_u32(body, 40),
        spec_setlkw_args(body)->0.padding == spec_read_u32(body, 44),
{

}

/// The arguments of a Access request are read from the `fuse_access_in` at its fixed
/// offsets.
pub proof fn law_access_args_layout(body: Seq<u8>)
    requires
        spec_access_args(body) is Some,
    ensures
        spec_access_args(body)->0.mask == spec_read_u32(body, 0),
        spec_access_args(body)->0.padding == spec_read_u32(body, 4),
{

}

/// The arguments of a Create request are read from the `fuse_create_in` at its fixed
/// offsets, and the name after it is the bytes up to the first zero byte.
pub proof fn law_create_args_layout(body: Seq<u8>)
    requires
        spec_create_args(body) is Some,
    ensures
        (spec_create_args(body)->0).0.flags == spec_read_u32(body, 0),
        (spec_create_args(body)->0).0.mode == spec_read_u32(body, 4),
        (spec_create_args(body)->0).0.umask == spec_read_u32(body, 8),
        (spec_create_args(body)->0).0.open_flags == spec_read_u32(body, 12),
        (spec_create_args(body)->0).1.len() < body.len() - 16,
        body.subrange(16, 16 + (spec_create_args(body)->0).1.len() as int) == (spec_create_args(body)->0).1,
        body[16 + (spec_create_args(body)->0).1.len() as int] == 0,
        forall|j: int| 0 <= j < (spec_create_args(body)->0).1.len() ==> (spec_create_args(body)->0).1[j] != 0,
{
    let rest = body.subrange(16, body.len() as int);
    law_cstr_is_bytes_before_first_zero(rest);
    let name = spec_cstr(rest)->0;
    assert(body.subrange(16, 16 + name.len() as int) =~= rest.subrange(0, name.len() as int));
    assert(body[16 + name.len() as int] == rest[name.len() as int]);
}

/// The arguments of a BMap request are read from the `fuse_bmap_in` at its fixed
/// offsets.
pub proof fn law_bmap_args_layout(body: Seq<u8>)
    requires
        spec_bmap_args(body) is Some,
    ensures
        spec_bmap_args(body)->0.block == spec_read_u64(body, 0),
        spec_bmap_args(body)->0.blocksize == spec_read_u32(body, 8),
        spec_bmap_args(body)->0.padding == spec_read_u32(body, 12),
{

}

/// The arguments of a IoCtl request are read from the `fuse_ioctl_in` at its fixed
/// offsets, and the data after it is the `in_size` bytes that follow.
pub proof fn law_ioctl_args_layout(body: Seq<u8>)
    requires
        spec_ioctl_args(body) is Some,
    ensures
        (spec_ioctl_args(body)->0).0.fh == spec_read_u64(body, 0),
        (spec_ioctl_args(body)->0).0.flags == spec_read_u32(body, 8),
        (spec_ioctl_args(body)->0).0.cmd == spec_read_u32(body, 12),
        (spec_ioctl_args(body)->0).0.arg == spec_read_u64(body, 16),
        (spec_ioctl_args(body)->0).0.in_size == spec_read_u32(body, 24),
        (spec_ioctl_args(body)->0).0.out_size == spec_read_u32(body, 28),
        (spec_ioctl_args(body)->0).1.len() == (spec_ioctl_args(body)->0).0.in_size,
        body.subrange(32, 32 + (spec_ioctl_args(body)->0).1.len() as int) == (spec_ioctl_args(body)->0).1,
{
    let rest = body.subrange(32, body.len() as int);
    assert(body.subrange(32, 32 + (spec_ioctl_args(body)->0).1.len() as int) =~= rest.subrange(0, (spec_ioctl_args(body)->0).1.len() as int));
}

/// The arguments of a Poll request are read from the `fuse_poll_in` at its fixed
/// offsets.
pub proof fn law_poll_args_layout(body: Seq<u8>)
    requires
        spec_poll_args(body) is Some,
    ensures
        spec_poll_args(body)->0.fh == spec_read_u64(body, 0),
        spec_poll_args(body)->0.kh == spec_read_u64(body, 8),
        spec_poll_args(body)->0.flags == spec_read_u32(body, 16),
        spec_poll_args(body)->0.events == spec_read_u32(body, 20),
{

}

/// The arguments of a FAllocate request are read from the `fuse_fallocate_in` at its
/// fixed offsets.
pub proof fn law_fallocate_args_layout(body: Seq<u8>)
    requires
        spec_fallocate_args(body) is Some,
    ensures
        spec_fallocate_args(body)->0.fh == spec_read_u64(body, 0),
        spec_fallocate_args(body)->0.offset == spec_read_u64(body, 8),
        spec_fallocate_args(body)->0.length == spec_read_u64(body, 16),
        spec_fallocate_args(body)->0.mode == spec_read_u32(body, 24),
        spec_fallocate_args(body)->0.padding == spec_read_u32(body, 28),
{

}

/// The arguments of a ReadDirPlus request are read from the `fuse_read_in` at its fixed
/// offsets.
pub proof fn law_readdirplus_args_layout(body: Seq<u8>)
    requires
        spec_readdirplus_args(body) is Some,
    ensures
        spec_readdirplus_args(body)->0.fh == spec_read_u64(body, 0),
        spec_readdirplus_args(body)->0.offset == spec_read_u64(body, 8),
        spec_readdirplus_args(body)->0.size == spec_read_u32(body, 16),
        spec_readdirplus_args(body)->0.read_flags == spec_read_u32(body, 20),
        spec_readdirplus_args(body)->0.lock_owner == spec_read_u64(body, 24),
        spec_readdirplus_args(body)->0.flags == spec_read_u32(body, 32),
        spec_readdirplus_args(body)->0.padding == spec_read_u32(body, 36),
{

}

/// The arguments of a Lseek request are read from the `fuse_lseek_in` at its fixed
/// offsets.
pub proof fn law_lseek_args_layout(body: Seq<u8>)
    requires
        spec_lseek_args(body) is Some,
    ensures
        spec_lseek_args(body)->0.fh == spec_read_u64(body, 0),
        spec_lseek_args(body)->0.offset == spec_read_u64(body, 8),
        spec_lseek_args(body)->0.whence == spec_read_u32(body, 16),
        spec_lseek_args(body)->0.padding == spec_read_u32(body, 20),
{

}

/// The arguments of a CopyFileRange request are read from the `fuse_copy_file_range_in`
/// at its fixed offsets.
pub proof fn law_copy_file_range_args_layout(body: Seq<u8>)
    requires
        spec_copy_file_range_args(body) is Some,
    ensures
        spec_copy_file_range_args(body)->0.fh_in == spec_read_u64(body, 0),
        spec_copy_file_range_args(body)->0.off_in == spec_read_u64(body, 8),
        spec_copy_file_range_args(body)->0.nodeid_out == spec_read_u64(body, 16),
        spec_copy_file_range_args(body)->0.fh_out == spec_read_u64(body, 24),
        spec_copy_file_range_args(body)->0.off_out == spec_read_u64(body, 32),
        spec_copy_file_range_args(body)->0.len == spec_read_u64(body, 40),
        spec_copy_file_range_args(body)->0.flags == spec_read_u64(body, 48),
{

}

/// The arguments of a SetVolName request are read from the start of the body, and the
/// name after it is the bytes up to the first zero byte.
pub proof fn law_setvolname_args_layout(body: Seq<u8>)
    requires
        spec_setvolname_args(body) is Some,
    ensures
        spec_setvolname_args(body)->0.len() < body.len() - 0,
        body.subrange(0, 0 + spec_setvolname_args(body)->0.len() as int) == spec_setvolname_args(body)->0,
        body[0 + spec_setvolname_args(body)->0.len() as int] == 0,
        forall|j: int| 0 <= j < spec_setvolname_args(body)->0.len() ==> spec_setvolname_args(body)->0[j] != 0,
{
    let rest = body;
    law_cstr_is_bytes_before_first_zero(rest);
    let name = spec_cstr(rest)->0;
    assert(body.subrange(0, 0 + name.len() as int) =~= rest.subrange(0, name.len() as int));
    assert(body[0 + name.len() as int] == rest[name.len() as int]);
}

/// The arguments of a Exchange request are read from the `fuse_exchange_in` at its
/// fixed offsets, and the two names after it are the bytes up to the first zero byte
/// and those from there up to the next.
#[verifier::spinoff_prover]
#[verifier::rlimit(40)]
pub proof fn law_exchange_args_layout(body: Seq<u8>)
    requires
        spec_exchange_args(body) is Some,
    ensures
        (spec_exchange_args(body)->0).0.olddir == spec_read_u64(body, 0),
        (spec_exchange_args(body)->0).0.newdir == spec_read_u64(body, 8),
        (spec_exchange_args(body)->0).0.options == spec_read_u64(body, 16),
        (spec_exchange_args(body)->0).1.len() < body.len() - 24,
        body.subrange(24, 24 + (spec_exchange_args(body)->0).1.len() as int) == (spec_exchange_args(body)->0).1,
        body[24 + (spec_exchange_args(body)->0).1.len() as int] == 0,
        forall|j: int| 0 <= j < (spec_exchange_args(body)->0).1.len() ==> (spec_exchange_args(body)->0).1[j] != 0,
        body.subrange(24 + (spec_exchange_args(body)->0).1.len() as int + 1, 24 + (spec_exchange_args(body)->0).1.len() as int + 1 + (spec_exchange_args(body)->0).2.len()) == (spec_exchange_args(body)->0).2,
        body[24 + (spec_exchange_args(body)->0).1.len() as int + 1 + (spec_exchange_args(body)->0).2.len()] == 0,
        forall|j: int| 0 <= j < (spec_exchange_args(body)->0).2.len() ==> (spec_exchange_args(body)->0).2[j] != 0,
{
    let rest = body.subrange(24, body.len() as int);
    law_cstr_is_bytes_before_first_zero(rest);
    let name = spec_cstr(rest)->0;
    assert(body.subrange(24, 24 + name.len() as int) =~= rest.subrange(0, name.len() as int));
    assert(body[24 + name.len() as int] == rest[name.len() as int]);
    law_after_cstr_follows_name(rest);
    let rest2 = spec_after_cstr(rest);
    assert(rest2 =~= body.subrange(24 + name.len() as int + 1, body.len() as int));
    law_cstr_is_bytes_before_first_zero(rest2);
    let second = spec_cstr(rest2)->0;
    assert(body.subrange(24 + name.len() as int + 1, 24 + name.len() as int + 1 + second.len()) =~= rest2.subrange(0, second.len() as int));
    assert(body[24 + name.len() as int + 1 + second.len()] == rest2[second.len() as int]);
}

/// The lookup count of a forget request (`fuse_forget_in`).
pub open spec fn spec_forget_args(body: Seq<u8>) -> Option<u64> {
    if body.len() < 8 { None } else { Some(spec_read_u64(body, 0)) }
}

/// Read the lookup count of a forget request.
pub fn forget_args(body: &[u8]) -> (r: Option<u64>)
    ensures
        r == spec_forget_args(body@),
{
    if body.len() < 8 { None } else { Some(read_u64(body, 0)) }
}

/// A batch forget body (`fuse_batch_forget_in`, then `count` times `fuse_forget_one`)
/// holds the nodes it announces.
pub open spec fn spec_batch_forget_ok(body: Seq<u8>) -> bool {
    body.len() >= 8 && body.len() >= 8 + 16 * (spec_read_u32(body, 0) as int)
}

/// The node `i` of a batch forget body: its inode and lookup count.
pub open spec fn spec_forget_one(body: Seq<u8>, i: int) -> (u64, u64) {
    (spec_read_u64(body, 8 + 16 * i), spec_read_u64(body, 16 + 16 * i))
}

/// The nodes of a batch forget body, in the order they come.
pub open spec fn spec_batch_nodes(body: Seq<u8>) -> Seq<(u64, u64)> {
    Seq::new(spec_read_u32(body, 0) as nat, |i: int| spec_forget_one(body, i))
}

/// Read the nodes of a batch forget request, in the order they come.
pub fn batch_forget_nodes(body: &[u8]) -> (r: Option<Vec<(u64, u64)>>)
    ensures
        r is Some <==> spec_batch_forget_ok(body@),
        r matches Some(nodes) ==> nodes@ == spec_batch_nodes(body@),
{
    if body.len() < 8 {
        return None;
    }
    let count = read_u32(body, 0) as usize;
    if count > (body.len() - 8) / 16 {
        return None;
    }
    assert(8 + 16 * count <= body@.len()) by (nonlinear_arith)
        requires
            count <= (body@.len() - 8) / 16,
            body@.len() >= 8,
    ;
    let n: usize = body.len();
    let mut nodes: Vec<(u64, u64)> = Vec::new();
    let mut i: usize = 0;
    while i < count
        invariant
            n == body@.len(),
            i <= count,
            count == spec_read_u32(body@, 0),
            8 + 16 * count <= body@.len(),
            nodes@.len() == i,
            forall|k: int| 0 <= k < i ==> #[trigger] nodes@[k] == spec_forget_one(body@, k),
        decreases count - i,
    {
        assert(8 + 16 * i + 16 <= body@.len()) by (nonlinear_arith)
            requires
                i < count,
                8 + 16 * count <= body@.len(),
        ;
        let off: usize = 8 + 16 * i;
        let node = (read_u64(body, off), read_u64(body, off + 8));
        nodes.push(node);
        i = i + 1;
    }
    assert(nodes@ =~= spec_batch_nodes(body@));
    Some(nodes)
}

/// A forget request's lookup count is the `u64` of its `fuse_forget_in`, at the
/// start of the body.
pub proof fn law_forget_args_layout(body: Seq<u8>)
    ensures
        spec_forget_args(body) is Some <==> body.len() >= 8,
        body.len() >= 8 ==> spec_forget_args(body) == Some(spec_read_u64(body, 0)),
{
}

/// A batch forget body announces its node count in its first `u32` and holds that many
/// `fuse_forget_one` records from byte 8 on, 16 bytes each: node `i` has its inode at
/// `8 + 16 i` and its lookup count at `16 + 16 i`, and the nodes come in that order.
pub proof fn law_batch_forget_layout(body: Seq<u8>)
    ensures
        spec_batch_forget_ok(body) <==> body.len() >= 8 && body.len() >= 8 + 16 * (spec_read_u32(body, 0) as int),
        spec_batch_nodes(body).len() == spec_read_u32(body, 0),
        forall|i: int| 0 <= i < spec_read_u32(body, 0) ==> #[trigger] spec_batch_nodes(body)[i] == (
            spec_read_u64(body, 8 + 16 * i),
            spec_read_u64(body, 16 + 16 * i),
        ),
{
}

/* ------ The filesystem ------ */

/// A filesystem served over FUSE. Each method that answers the kernel is handed a
/// reply container holding the request's reply handler; one that does not serve its
/// operation answers `ENOSYS` through it. Each method ensures its hook, so an
/// implementation that defines the hook says what the method does; `batch_forget`
/// ensures what forgetting each of its nodes in turn would.
pub trait Filesystem<S: ReplySender>: Sized {
    /// Initializing with the configuration `config` may leave the filesystem as
    /// `after`, the configuration as `config_after`, and return `r`.
    open spec fn inited(
        &self,
        after: &Self,
        req: RequestMeta,
        config: KernelConfigView,
        config_after: KernelConfigView,
        r: Result<(), i32>,
    ) -> bool {
        true
    }

    /// Initialize the filesystem: it may adjust the configuration proposed by the
    /// kernel, or refuse it with an error number.
    fn init(&mut self, req: &RequestMeta, config: &mut KernelConfig) -> (r: Result<(), i32>)
        ensures
            old(self).inited(final(self), *req, old(config)@, final(config)@, r),
    ;

    /// Destroying may leave the filesystem as `after`.
    open spec fn destroyed(&self, after: &Self) -> bool {
        true
    }

    /// Clean up the filesystem; called when the session ends.
    fn destroy(&mut self)
        ensures
            old(self).destroyed(final(self)),
    ;

    /// Forgetting `nlookup` lookups of `ino` may leave the filesystem as `after`.
    open spec fn forgot(&self, after: &Self, req: RequestMeta, ino: u64, nlookup: u64) -> bool {
        true
    }

    /// The kernel forgets `nlookup` lookups of inode `ino`. No reply is sent.
    fn forget(&mut self, req: &RequestMeta, ino: u64, nlookup: u64)
        ensures
            old(self).forgot(final(self), *req, ino, nlookup),
    ;

    /// The kernel forgets several inodes at once. No reply is sent. Whatever an
    /// implementation does, it is as if each node were forgotten in turn; by default
    /// each is, by `forget`, in order.
    fn batch_forget(&mut self, req: &RequestMeta, nodes: &[(u64, u64)])
        ensures
            exists|states: Seq<Self>| {
                &&& states.len() == nodes@.len() + 1
                &&& states[0] == *old(self)
                &&& states[nodes@.len() as int] == *final(self)
                &&& forall|i: int| 0 <= i < nodes@.len() ==> #[trigger] states[i].forgot(
                    &states[i + 1],
                    *req,
                    nodes@[i].0,
                    nodes@[i].1,
                )
            },
    {
        let ghost mut states: Seq<Self> = seq![*self];
        let mut i: usize = 0;
        while i < nodes.len()
            invariant
                i <= nodes@.len(),
                states.len() == i + 1,
                states[0] == *old(self),
                states[i as int] == *self,
                forall|k: int| 0 <= k < i ==> #[trigger] states[k].forgot(&states[k + 1], *req, nodes@[k].0, nodes@[k].1),
            decreases nodes@.len() - i,
        {
            let (ino, nlookup) = nodes[i];
            let ghost before = *self;
            self.forget(req, ino, nlookup);
            proof {
                states = states.push(*self);
                assert(states[i as int] == before);
            }
            i = i + 1;
        }
        assert(states[nodes@.len() as int] == *self);
    }

    /// Serving this operation with these arguments and `reply` may leave the
    /// filesystem as `after`.
    open spec fn looked_up(&self, after: &Self, req: RequestMeta, ino: u64, name: Seq<u8>, reply: ReplyEntry<Option<ReplyHandler<S>>>) -> bool {
        true
    }

    /// Look up the entry `name` in directory `ino`.
    fn lookup(&mut self, req: &RequestMeta, ino: u64, name: &[u8], reply: ReplyEntry<Option<ReplyHandler<S>>>)
        ensures
            old(self).looked_up(final(self), *req, ino, name@, reply),
    ;

    /// Serving this operation with these arguments and `reply` may leave the
    /// filesystem as `after`.
    open spec fn got_attr(&self, after: &Self, req: RequestMeta, ino: u64, args: GetattrIn, reply: ReplyAttr<Option<ReplyHandler<S>>>) -> bool {
        true
    }

    /// Get the attributes of inode `ino` (through the open file `args.fh` when `args.getattr_flags` has `FUSE_GETATTR_FH`).
    fn getattr(&mut self, req: &RequestMeta, ino: u64, args: GetattrIn, reply: ReplyAttr<Option<ReplyHandler<S>>>)
        ensures
            old(self).got_attr(final(self), *req, ino, args, reply),
    ;

    /// Serving this operation with these arguments and `reply` may leave the
    /// filesystem as `after`.
    open spec fn set_attr(&self, after: &Self, req: RequestMeta, ino: u64, args: SetattrIn, reply: ReplyAttr<Option<ReplyHandler<S>>>) -> bool {
        true
    }

    /// Set the attributes of inode `ino` that `args.valid` marks.
    fn setattr(&mut self, req: &RequestMeta, ino: u64, args: SetattrIn, reply: ReplyAttr<Option<ReplyHandler<S>>>)
        ensures
            old(self).set_attr(final(self), *req, ino, args, reply),
    ;

    /// Serving this operation with these arguments and `reply` may leave the
    /// filesystem as `after`.
    open spec fn read_link(&self, after: &Self, req: RequestMeta, ino: u64, reply: ReplyData<Option<ReplyHandler<S>>>) -> bool {
        true
    }

    /// Read the target of the symbolic link `ino`.
    fn readlink(&mut self, req: &RequestMeta, ino: u64, reply: ReplyData<Option<ReplyHandler<S>>>)
        ensures
            old(self).read_link(final(self), *req, ino, reply),
    ;

    /// Serving this operation with these arguments and `reply` may leave the
    /// filesystem as `after`.
    open spec fn made_symlink(&self, after: &Self, req: RequestMeta, ino: u64, name: Seq<u8>, link: Seq<u8>, reply: ReplyEntry<Option<ReplyHandler<S>>>) -> bool {
        true
    }

    /// Create in directory `ino` the symbolic link `name` to `link`.
    fn symlink(&mut self, req: &RequestMeta, ino: u64, name: &[u8], link: &[u8], reply: ReplyEntry<Option<ReplyHandler<S>>>)
        ensures
            old(self).made_symlink(final(self), *req, ino, name@, link@, reply),
    ;

    /// Serving this operation with these arguments and `reply` may leave the
    /// filesystem as `after`.
    open spec fn made_node(&self, after: &Self, req: RequestMeta, ino: u64, args: MknodIn, name: Seq<u8>, reply: ReplyEntry<Option<ReplyHandler<S>>>) -> bool {
        true
    }

    /// Create the file node `name` in directory `ino`.
    fn mknod(&mut self, req: &RequestMeta, ino: u64, args: MknodIn, name: &[u8], reply: ReplyEntry<Option<ReplyHandler<S>>>)
        ensures
            old(self).made_node(final(self), *req, ino, args, name@, reply),
    ;

    /// Serving this operation with these arguments and `reply` may leave the
    /// filesystem as `after`.
    open spec fn made_dir(&self, after: &Self, req: RequestMeta, ino: u64, args: MkdirIn, name: Seq<u8>, reply: ReplyEntry<Option<ReplyHandler<S>>>) -> bool {
        true
    }

    /// Create the directory `name` in directory `ino`.
    fn mkdir(&mut self, req: &RequestMeta, ino: u64, args: MkdirIn, name: &[u8], reply: ReplyEntry<Option<ReplyHandler<S>>>)
        ensures
            old(self).made_dir(final(self), *req, ino, args, name@, reply),
    ;

    /// Serving this operation with these arguments and `reply` may leave the
    /// filesystem as `after`.
    open spec fn unlinked(&self, after: &Self, req: RequestMeta, ino: u64, name: Seq<u8>, reply: ReplyEmpty<Option<ReplyHandler<S>>>) -> bool {
        true
    }

    /// Remove the file `name` from directory `ino`.
    fn unlink(&mut self, req: &RequestMeta, ino: u64, name: &[u8], reply: ReplyEmpty<Option<ReplyHandler<S>>>)
        ensures
            old(self).unlinked(final(self), *req, ino, name@, reply),
    ;

    /// Serving this operation with these arguments and `reply` may leave the
    /// filesystem as `after`.
    open spec fn removed_dir(&self, after: &Self, req: RequestMeta, ino: u64, name: Seq<u8>, reply: ReplyEmpty<Option<ReplyHandler<S>>>) -> bool {
        true
    }

    /// Remove the directory `name` from directory `ino`.
    fn rmdir(&mut self, req: &RequestMeta, ino: u64, name: &[u8], reply: ReplyEmpty<Option<ReplyHandler<S>>>)
        ensures
            old(self).removed_dir(final(self), *req, ino, name@, reply),
    ;

    /// Serving this operation with these arguments and `reply` may leave the
    /// filesystem as `after`.
    open spec fn renamed(&self, after: &Self, req: RequestMeta, ino: u64, args: RenameIn, name: Seq<u8>, newname: Seq<u8>, reply: ReplyEmpty<Option<ReplyHandler<S>>>) -> bool {
        true
    }

    /// Rename the entry `name` of directory `ino` to `newname` in directory `args.newdir`, with `args.flags`.
    fn rename(&mut self, req: &RequestMeta, ino: u64, args: RenameIn, name: &[u8], newname: &[u8], reply: ReplyEmpty<Option<ReplyHandler<S>>>)
        ensures
            old(self).renamed(final(self), *req, ino, args, name@, newname@, reply),
    ;

    /// Serving this operation with these arguments and `reply` may leave the
    /// filesystem as `after`.
    open spec fn linked(&self, after: &Self, req: RequestMeta, ino: u64, args: LinkIn, name: Seq<u8>, reply: ReplyEntry<Option<ReplyHandler<S>>>) -> bool {
        true
    }

    /// Create in directory `ino` the hard link `name` to inode `args.oldnodeid`.
    fn link(&mut self, req: &RequestMeta, ino: u64, args: LinkIn, name: &[u8], reply: ReplyEntry<Option<ReplyHandler<S>>>)
        ensures
            old(self).linked(final(self), *req, ino, args, name@, reply),
    ;

    /// Serving this operation with these arguments and `reply` may leave the
    /// filesystem as `after`.
    open spec fn opened(&self, after: &Self, req: RequestMeta, ino: u64, args: OpenIn, reply: ReplyOpen<Option<ReplyHandler<S>>>) -> bool {
        true
    }

    /// Open inode `ino`.
    fn open(&mut self, req: &RequestMeta, ino: u64, args: OpenIn, reply: ReplyOpen<Option<ReplyHandler<S>>>)
        ensures
            old(self).opened(final(self), *req, ino, args, reply),
    ;

    /// Serving this operation with these arguments and `reply` may leave the
    /// filesystem as `after`.
    open spec fn read_from(&self, after: &Self, req: RequestMeta, ino: u64, args: ReadIn, reply: ReplyData<Option<ReplyHandler<S>>>) -> bool {
        true
    }

    /// Read from the open file `args.fh` of inode `ino`.
    fn read(&mut self, req: &RequestMeta, ino: u64, args: ReadIn, reply: ReplyData<Option<ReplyHandler<S>>>)
        ensures
            old(self).read_from(final(self), *req, ino, args, reply),
    ;

    /// Serving this operation with these arguments and `reply` may leave the
    /// filesystem as `after`.
    open spec fn written_to(&self, after: &Self, req: RequestMeta, ino: u64, args: WriteIn, data: Seq<u8>, reply: ReplyWrite<Option<ReplyHandler<S>>>) -> bool {
        true
    }

    /// Write `data` to the open file `args.fh` of inode `ino`.
    fn write(&mut self, req: &RequestMeta, ino: u64, args: WriteIn, data: &[u8], reply: ReplyWrite<Option<ReplyHandler<S>>>)
        ensures
            old(self).written_to(final(self), *req, ino, args, data@, reply),
    ;

    /// Serving this operation with these arguments and `reply` may leave the
    /// filesystem as `after`.
    open spec fn stat_fs(&self, after: &Self, req: RequestMeta, ino: u64, reply: ReplyStatfs<Option<ReplyHandler<S>>>) -> bool {
        true
    }

    /// Get the statistics of the filesystem holding inode `ino`.
    fn statfs(&mut self, req: &RequestMeta, ino: u64, reply: ReplyStatfs<Option<ReplyHandler<S>>>)
        ensures
            old(self).stat_fs(final(self), *req, ino, reply),
    ;

    /// Serving this operation with these arguments and `reply` may leave the
    /// filesystem as `after`.
    open spec fn released(&self, after: &Self, req: RequestMeta, ino: u64, args: ReleaseIn, reply: ReplyEmpty<Option<ReplyHandler<S>>>) -> bool {
        true
    }

    /// Release the open file `args.fh` of inode `ino`.
    fn release(&mut self, req: &RequestMeta, ino: u64, args: ReleaseIn, reply: ReplyEmpty<Option<ReplyHandler<S>>>)
        ensures
            old(self).released(final(self), *req, ino, args, reply),
    ;

    /// Serving this operation with these arguments and `reply` may leave the
    /// filesystem as `after`.
    open spec fn synced(&self, after: &Self, req: RequestMeta, ino: u64, args: FsyncIn, reply: ReplyEmpty<Option<ReplyHandler<S>>>) -> bool {
        true
    }

    /// Sync the open file `args.fh` of inode `ino`.
    fn fsync(&mut self, req: &RequestMeta, ino: u64, args: FsyncIn, reply: ReplyEmpty<Option<ReplyHandler<S>>>)
        ensures
            old(self).synced(final(self), *req, ino, args, reply),
    ;

    /// Serving this operation with these arguments and `reply` may leave the
    /// filesystem as `after`.
    open spec fn set_xattr(&self, after: &Self, req: RequestMeta, ino: u64, args: SetxattrIn, name: Seq<u8>, value: Seq<u8>, reply: ReplyEmpty<Option<ReplyHandler<S>>>) -> bool {
        true
    }

    /// Set the extended attribute `name` of inode `ino` to `value`.
    fn setxattr(&mut self, req: &RequestMeta, ino: u64, args: SetxattrIn, name: &[u8], value: &[u8], reply: ReplyEmpty<Option<ReplyHandler<S>>>)
        ensures
            old(self).set_xattr(final(self), *req, ino, args, name@, value@, reply),
    ;

    /// Serving this operation with these arguments and `reply` may leave the
    /// filesystem as `after`.
    open spec fn got_xattr(&self, after: &Self, req: RequestMeta, ino: u64, args: GetxattrIn, name: Seq<u8>, reply: ReplyXattr<Option<ReplyHandler<S>>>) -> bool {
        true
    }

    /// Get the extended attribute `name` of inode `ino`, or its size when `args.size` is 0.
    fn getxattr(&mut self, req: &RequestMeta, ino: u64, args: GetxattrIn, name: &[u8], reply: ReplyXattr<Option<ReplyHandler<S>>>)
        ensures
            old(self).got_xattr(final(self), *req, ino, args, name@, reply),
    ;

    /// Serving this operation with these arguments and `reply` may leave the
    /// filesystem as `after`.
    open spec fn listed_xattr(&self, after: &Self, req: RequestMeta, ino: u64, args: GetxattrIn, reply: ReplyXattr<Option<ReplyHandler<S>>>) -> bool {
        true
    }

    /// List the extended attribute names of inode `ino`, or their size when `args.size` is 0.
    fn listxattr(&mut self, req: &RequestMeta, ino: u64, args: GetxattrIn, reply: ReplyXattr<Option<ReplyHandler<S>>>)
        ensures
            old(self).listed_xattr(final(self), *req, ino, args, reply),
    ;

    /// Serving this operation with these arguments and `reply` may leave the
    /// filesystem as `after`.
    open spec fn removed_xattr(&self, after: &Self, req: RequestMeta, ino: u64, name: Seq<u8>, reply: ReplyEmpty<Option<ReplyHandler<S>>>) -> bool {
        true
    }

    /// Remove the extended attribute `name` of inode `ino`.
    fn removexattr(&mut self, req: &RequestMeta, ino: u64, name: &[u8], reply: ReplyEmpty<Option<ReplyHandler<S>>>)
        ensures
            old(self).removed_xattr(final(self), *req, ino, name@, reply),
    ;

    /// Serving this operation with these arguments and `reply` may leave the
    /// filesystem as `after`.
    open spec fn flushed(&self, after: &Self, req: RequestMeta, ino: u64, args: FlushIn, reply: ReplyEmpty<Option<ReplyHandler<S>>>) -> bool {
        true
    }

    /// Flush the open file `args.fh` of inode `ino`.
    fn flush(&mut self, req: &RequestMeta, ino: u64, args: FlushIn, reply: ReplyEmpty<Option<ReplyHandler<S>>>)
        ensures
            old(self).flushed(final(self), *req, ino, args, reply),
    ;

    /// Serving this operation with these arguments and `reply` may leave the
    /// filesystem as `after`.
    open spec fn opened_dir(&self, after: &Self, req: RequestMeta, ino: u64, args: OpenIn, reply: ReplyOpen<Option<ReplyHandler<S>>>) -> bool {
        true
    }

    /// Open the directory `ino`.
    fn opendir(&mut self, req: &RequestMeta, ino: u64, args: OpenIn, reply: ReplyOpen<Option<ReplyHandler<S>>>)
        ensures
            old(self).opened_dir(final(self), *req, ino, args, reply),
    ;

    /// Serving this operation with these arguments and `reply` may leave the
    /// filesystem as `after`.
    open spec fn read_dir(&self, after: &Self, req: RequestMeta, ino: u64, args: ReadIn, reply: ReplyDirectory<DirectoryHandler<S>>) -> bool {
        true
    }

    /// List the directory `ino` from `args.offset`; the reply's listing is limited to `args.size` bytes.
    fn readdir(&mut self, req: &RequestMeta, ino: u64, args: ReadIn, reply: ReplyDirectory<DirectoryHandler<S>>)
        ensures
            old(self).read_dir(final(self), *req, ino, args, reply),
    ;

    /// Serving this operation with these arguments and `reply` may leave the
    /// filesystem as `after`.
    open spec fn released_dir(&self, after: &Self, req: RequestMeta, ino: u64, args: ReleaseIn, reply: ReplyEmpty<Option<ReplyHandler<S>>>) -> bool {
        true
    }

    /// Release the open directory `args.fh` of inode `ino`.
    fn releasedir(&mut self, req: &RequestMeta, ino: u64, args: ReleaseIn, reply: ReplyEmpty<Option<ReplyHandler<S>>>)
        ensures
            old(self).released_dir(final(self), *req, ino, args, reply),
    ;

    /// Serving this operation with these arguments and `reply` may leave the
    /// filesystem as `after`.
    open spec fn synced_dir(&self, after: &Self, req: RequestMeta, ino: u64, args: FsyncIn, reply: ReplyEmpty<Option<ReplyHandler<S>>>) -> bool {
        true
    }

    /// Sync the open directory `args.fh` of inode `ino`.
    fn fsyncdir(&mut self, req: &RequestMeta, ino: u64, args: FsyncIn, reply: ReplyEmpty<Option<ReplyHandler<S>>>)
        ensures
            old(self).synced_dir(final(self), *req, ino, args, reply),
    ;

    /// Serving this operation with these arguments and `reply` may leave the
    /// filesystem as `after`.
    open spec fn got_lock(&self, after: &Self, req: RequestMeta, ino: u64, args: LkIn, reply: ReplyLock<Option<ReplyHandler<S>>>) -> bool {
        true
    }

    /// Test for a lock on the open file `args.fh` of inode `ino`.
    fn getlk(&mut self, req: &RequestMeta, ino: u64, args: LkIn, reply: ReplyLock<Option<ReplyHandler<S>>>)
        ensures
            old(self).got_lock(final(self), *req, ino, args, reply),
    ;

    /// Serving this operation with these arguments and `reply` may leave the
    /// filesystem as `after`.
    open spec fn set_lock(&self, after: &Self, req: RequestMeta, ino: u64, args: LkIn, sleep: bool, reply: ReplyEmpty<Option<ReplyHandler<S>>>) -> bool {
        true
    }

    /// Acquire, modify or release a lock on the open file `args.fh` of inode `ino`; with `sleep`, wait for it.
    fn setlk(&mut self, req: &RequestMeta, ino: u64, args: LkIn, sleep: bool, reply: ReplyEmpty<Option<ReplyHandler<S>>>)
        ensures
            old(self).set_lock(final(self), *req, ino, args, sleep, reply),
    ;

    /// Serving this operation with these arguments and `reply` may leave the
    /// filesystem as `after`.
    open spec fn accessed(&self, after: &Self, req: RequestMeta, ino: u64, args: AccessIn, reply: ReplyEmpty<Option<ReplyHandler<S>>>) -> bool {
        true
    }

    /// Check whether the caller may access inode `ino` with `args.mask`.
    fn access(&mut self, req: &RequestMeta, ino: u64, args: AccessIn, reply: ReplyEmpty<Option<ReplyHandler<S>>>)
        ensures
            old(self).accessed(final(self), *req, ino, args, reply),
    ;

    /// Serving this operation with these arguments and `reply` may leave the
    /// filesystem as `after`.
    open spec fn created(&self, after: &Self, req: RequestMeta, ino: u64, args: CreateIn, name: Seq<u8>, reply: ReplyCreate<Option<ReplyHandler<S>>>) -> bool {
        true
    }

    /// Create and open the file `name` in directory `ino`.
    fn create(&mut self, req: &RequestMeta, ino: u64, args: CreateIn, name: &[u8], reply: ReplyCreate<Option<ReplyHandler<S>>>)
        ensures
            old(self).created(final(self), *req, ino, args, name@, reply),
    ;

    /// Serving this operation with these arguments and `reply` may leave the
    /// filesystem as `after`.
    open spec fn mapped(&self, after: &Self, req: RequestMeta, ino: u64, args: BmapIn, reply: ReplyBmap<Option<ReplyHandler<S>>>) -> bool {
        true
    }

    /// Map the block `args.block` of inode `ino` to a device block.
    fn bmap(&mut self, req: &RequestMeta, ino: u64, args: BmapIn, reply: ReplyBmap<Option<ReplyHandler<S>>>)
        ensures
            old(self).mapped(final(self), *req, ino, args, reply),
    ;

    /// Serving this operation with these arguments and `reply` may leave the
    /// filesystem as `after`.
    open spec fn controlled(&self, after: &Self, req: RequestMeta, ino: u64, args: IoctlIn, data: Seq<u8>, reply: ReplyIoctl<Option<ReplyHandler<S>>>) -> bool {
        true
    }

    /// Run the ioctl `args.cmd` on the open file `args.fh` of inode `ino`, with input `data`.
    fn ioctl(&mut self, req: &RequestMeta, ino: u64, args: IoctlIn, data: &[u8], reply: ReplyIoctl<Option<ReplyHandler<S>>>)
        ensures
            old(self).controlled(final(self), *req, ino, args, data@, reply),
    ;

    /// Serving this operation with these arguments and `reply` may leave the
    /// filesystem as `after`.
    open spec fn polled(&self, after: &Self, req: RequestMeta, ino: u64, args: PollIn, reply: ReplyPoll<Option<ReplyHandler<S>>>) -> bool {
        true
    }

    /// Poll the open file `args.fh` of inode `ino` for `args.events`.
    fn poll(&mut self, req: &RequestMeta, ino: u64, args: PollIn, reply: ReplyPoll<Option<ReplyHandler<S>>>)
        ensures
            old(self).polled(final(self), *req, ino, args, reply),
    ;

    /// Serving this operation with these arguments and `reply` may leave the
    /// filesystem as `after`.
    open spec fn allocated(&self, after: &Self, req: RequestMeta, ino: u64, args: FallocateIn, reply: ReplyEmpty<Option<ReplyHandler<S>>>) -> bool {
        true
    }

    /// Allocate space for the open file `args.fh` of inode `ino`.
    fn fallocate(&mut self, req: &RequestMeta, ino: u64, args: FallocateIn, reply: ReplyEmpty<Option<ReplyHandler<S>>>)
        ensures
            old(self).allocated(final(self), *req, ino, args, reply),
    ;

    /// Serving this operation with these arguments and `reply` may leave the
    /// filesystem as `after`.
    open spec fn read_dir_plus(&self, after: &Self, req: RequestMeta, ino: u64, args: ReadIn, reply: ReplyDirectoryPlus<DirectoryPlusHandler<S>>) -> bool {
        true
    }

    /// List the directory `ino` from `args.offset` with the attributes of each entry; the reply's listing is limited to `args.size` bytes.
    fn readdirplus(&mut self, req: &RequestMeta, ino: u64, args: ReadIn, reply: ReplyDirectoryPlus<DirectoryPlusHandler<S>>)
        ensures
            old(self).read_dir_plus(final(self), *req, ino, args, reply),
    ;

    /// Serving this operation with these arguments and `reply` may leave the
    /// filesystem as `after`.
    open spec fn sought(&self, after: &Self, req: RequestMeta, ino: u64, args: LseekIn, reply: ReplyLseek<Option<ReplyHandler<S>>>) -> bool {
        true
    }

    /// Find the next data or hole from `args.offset` in the open file `args.fh` of inode `ino`.
    fn lseek(&mut self, req: &RequestMeta, ino: u64, args: LseekIn, reply: ReplyLseek<Option<ReplyHandler<S>>>)
        ensures
            old(self).sought(final(self), *req, ino, args, reply),
    ;

    /// Serving this operation with these arguments and `reply` may leave the
    /// filesystem as `after`.
    open spec fn copied(&self, after: &Self, req: RequestMeta, ino: u64, args: CopyFileRangeIn, reply: ReplyWrite<Option<ReplyHandler<S>>>) -> bool {
        true
    }

    /// Copy a range from the open file `args.fh_in` of inode `ino` to the open file `args.fh_out` of inode `args.nodeid_out`.
    fn copy_file_range(&mut self, req: &RequestMeta, ino: u64, args: CopyFileRangeIn, reply: ReplyWrite<Option<ReplyHandler<S>>>)
        ensures
            old(self).copied(final(self), *req, ino, args, reply),
    ;

    /// Serving this operation with these arguments and `reply` may leave the
    /// filesystem as `after`.
    open spec fn set_vol_name(&self, after: &Self, req: RequestMeta, name: Seq<u8>, reply: ReplyEmpty<Option<ReplyHandler<S>>>) -> bool {
        true
    }

    /// Set the name of the volume to `name` (macOS).
    fn setvolname(&mut self, req: &RequestMeta, name: &[u8], reply: ReplyEmpty<Option<ReplyHandler<S>>>)
        ensures
            old(self).set_vol_name(final(self), *req, name@, reply),
    ;

    /// Serving this operation with these arguments and `reply` may leave the
    /// filesystem as `after`.
    open spec fn got_xtimes(&self, after: &Self, req: RequestMeta, ino: u64, reply: ReplyXTimes<Option<ReplyHandler<S>>>) -> bool {
        true
    }

    /// Get the backup and creation times of inode `ino` (macOS).
    fn getxtimes(&mut self, req: &RequestMeta, ino: u64, reply: ReplyXTimes<Option<ReplyHandler<S>>>)
        ensures
            old(self).got_xtimes(final(self), *req, ino, reply),
    ;

    /// Serving this operation with these arguments and `reply` may leave the
    /// filesystem as `after`.
    open spec fn exchanged(&self, after: &Self, req: RequestMeta, args: ExchangeIn, name: Seq<u8>, newname: Seq<u8>, reply: ReplyEmpty<Option<ReplyHandler<S>>>) -> bool {
        true
    }

    /// Exchange the entry `name` of directory `args.olddir` with the entry `newname` of directory `args.newdir`, with `args.options` (macOS).
    fn exchange(&mut self, req: &RequestMeta, args: ExchangeIn, name: &[u8], newname: &[u8], reply: ReplyEmpty<Option<ReplyHandler<S>>>)
        ensures
            old(self).exchanged(final(self), *req, args, name@, newname@, reply),
    ;

}

/// Forgetting `nodes` in turn takes the filesystem from `before` to `after`: it passes
/// through one state per node, each reached from the one before by forgetting that
/// node.
pub open spec fn spec_forgot_each<S: ReplySender, FS: Filesystem<S>>(
    before: FS,
    after: FS,
    req: RequestMeta,
    nodes: Seq<(u64, u64)>,
) -> bool {
    exists|states: Seq<FS>| {
        &&& states.len() == nodes.len() + 1
        &&& states[0] == before
        &&& states[nodes.len() as int] == after
        &&& forall|i: int| 0 <= i < nodes.len() ==> #[trigger] states[i].forgot(
            &states[i + 1],
            req,
            nodes[i].0,
            nodes[i].1,
        )
    }
}

/* ------ Dispatch ------ */

/// `h` is the reply handler `reply` once prepared for a call: the same request and
/// sender, and the attribute time-to-live overridden when `override_ttl` asks for it.
pub open spec fn spec_prepared<S: ReplySender>(reply: ReplyHandler<S>, h: ReplyHandler<S>, override_ttl: bool) -> bool {
    &&& h.unique() == reply.unique()
    &&& h.sender() == reply.sender()
    &&& h.overrides_attr_ttl() == (reply.overrides_attr_ttl() || override_ttl)
}

/// Whether a request of kind `kind` with body `body` is handed to the filesystem once
/// its route lets it through: its arguments could be read.
pub open spec fn spec_reaches_filesystem(kind: OperationKind, body: Seq<u8>) -> bool {
    match kind {
        OperationKind::Forget => spec_forget_args(body) is Some,
        OperationKind::BatchForget => spec_batch_forget_ok(body),
        OperationKind::Lookup => spec_lookup_args(body) is Some,
        OperationKind::GetAttr => spec_getattr_args(body) is Some,
        OperationKind::SetAttr => spec_setattr_args(body) is Some,
        OperationKind::ReadLink => true,
        OperationKind::SymLink => spec_symlink_args(body) is Some,
        OperationKind::MkNod => spec_mknod_args(body) is Some,
        OperationKind::MkDir => spec_mkdir_args(body) is Some,
        OperationKind::Unlink => spec_unlink_args(body) is Some,
        OperationKind::RmDir => spec_rmdir_args(body) is Some,
        OperationKind::Rename => spec_rename_args(body) is Some,
        OperationKind::Rename2 => spec_rename2_args(body) is Some,
        OperationKind::Link => spec_link_args(body) is Some,
        OperationKind::Open => spec_open_args(body) is Some,
        OperationKind::Read => spec_read_args(body) is Some,
        OperationKind::Write => spec_write_args(body) is Some,
        OperationKind::StatFs => true,
        OperationKind::Release => spec_release_args(body) is Some,
        OperationKind::FSync => spec_fsync_args(body) is Some,
        OperationKind::SetXAttr => spec_setxattr_args(body) is Some,
        OperationKind::GetXAttr => spec_getxattr_args(body) is Some,
        OperationKind::ListXAttr => spec_listxattr_args(body) is Some,
        OperationKind::RemoveXAttr => spec_removexattr_args(body) is Some,
        OperationKind::Flush => spec_flush_args(body) is Some,
        OperationKind::OpenDir => spec_opendir_args(body) is Some,
        OperationKind::ReadDir => spec_readdir_args(body) is Some,
        OperationKind::ReleaseDir => spec_releasedir_args(body) is Some,
        OperationKind::FSyncDir => spec_fsyncdir_args(body) is Some,
        OperationKind::GetLk => spec_getlk_args(body) is Some,
        OperationKind::SetLk => spec_setlk_args(body) is Some,
        OperationKind::SetLkW => spec_setlkw_args(body) is Some,
        OperationKind::Access => spec_access_args(body) is Some,
        OperationKind::Create => spec_create_args(body) is Some,
        OperationKind::BMap => spec_bmap_args(body) is Some,
        OperationKind::IoCtl { .. } => spec_ioctl_args(body) is Some,
        OperationKind::Poll => spec_poll_args(body) is Some,
        OperationKind::FAllocate => spec_fallocate_args(body) is Some,
        OperationKind::ReadDirPlus => spec_readdirplus_args(body) is Some,
        OperationKind::Lseek => spec_lseek_args(body) is Some,
        OperationKind::CopyFileRange => spec_copy_file_range_args(body) is Some,
        OperationKind::SetVolName => spec_setvolname_args(body) is Some,
        OperationKind::GetXTimes => true,
        OperationKind::Exchange => spec_exchange_args(body) is Some,
        _ => false,
    }
}

/// Whether the arguments of a request of kind `kind` can be read from `body`: the
/// `fuse_init_in` of an init, the decoded arguments of an operation a filesystem
/// method serves; a request of another kind takes none.
pub open spec fn spec_args_readable(kind: OperationKind, body: Seq<u8>) -> bool {
    match kind {
        OperationKind::Init { .. } => spec_init_in(body) is Some,
        OperationKind::Forget => spec_forget_args(body) is Some,
        OperationKind::BatchForget => spec_batch_forget_ok(body),
        OperationKind::Lookup => spec_lookup_args(body) is Some,
        OperationKind::GetAttr => spec_getattr_args(body) is Some,
        OperationKind::SetAttr => spec_setattr_args(body) is Some,
        OperationKind::SymLink => spec_symlink_args(body) is Some,
        OperationKind::MkNod => spec_mknod_args(body) is Some,
        OperationKind::MkDir => spec_mkdir_args(body) is Some,
        OperationKind::Unlink => spec_unlink_args(body) is Some,
        OperationKind::RmDir => spec_rmdir_args(body) is Some,
        OperationKind::Rename => spec_rename_args(body) is Some,
        OperationKind::Rename2 => spec_rename2_args(body) is Some,
        OperationKind::Link => spec_link_args(body) is Some,
        OperationKind::Open => spec_open_args(body) is Some,
        OperationKind::Read => spec_read_args(body) is Some,
        OperationKind::Write => spec_write_args(body) is Some,
        OperationKind::Release => spec_release_args(body) is Some,
        OperationKind::FSync => spec_fsync_args(body) is Some,
        OperationKind::SetXAttr => spec_setxattr_args(body) is Some,
        OperationKind::GetXAttr => spec_getxattr_args(body) is Some,
        OperationKind::ListXAttr => spec_listxattr_args(body) is Some,
        OperationKind::RemoveXAttr => spec_removexattr_args(body) is Some,
        OperationKind::Flush => spec_flush_args(body) is Some,
        OperationKind::OpenDir => spec_opendir_args(body) is Some,
        OperationKind::ReadDir => spec_readdir_args(body) is Some,
        OperationKind::ReleaseDir => spec_releasedir_args(body) is Some,
        OperationKind::FSyncDir => spec_fsyncdir_args(body) is Some,
        OperationKind::GetLk => spec_getlk_args(body) is Some,
        OperationKind::SetLk => spec_setlk_args(body) is Some,
        OperationKind::SetLkW => spec_setlkw_args(body) is Some,
        OperationKind::Access => spec_access_args(body) is Some,
        OperationKind::Create => spec_create_args(body) is Some,
        OperationKind::BMap => spec_bmap_args(body) is Some,
        OperationKind::IoCtl { .. } => spec_ioctl_args(body) is Some,
        OperationKind::Poll => spec_poll_args(body) is Some,
        OperationKind::FAllocate => spec_fallocate_args(body) is Some,
        OperationKind::ReadDirPlus => spec_readdirplus_args(body) is Some,
        OperationKind::Lseek => spec_lseek_args(body) is Some,
        OperationKind::CopyFileRange => spec_copy_file_range_args(body) is Some,
        OperationKind::SetVolName => spec_setvolname_args(body) is Some,
        OperationKind::Exchange => spec_exchange_args(body) is Some,
        _ => true,
    }
}

/// Whether a request can be read: its kind is unknown (`None`), or its arguments can
/// be read from `body`.
pub open spec fn spec_request_readable(kind: Option<OperationKind>, body: Seq<u8>) -> bool {
    match kind {
        Some(k) => spec_args_readable(k, body),
        None => true,
    }
}

/// Check whether the arguments of a request of kind `kind` can be read from `body`.
pub fn args_readable(kind: &OperationKind, body: &[u8]) -> (r: bool)
    ensures
        r == spec_args_readable(*kind, body@),
{
    match kind {
        OperationKind::Init { .. } => parse_init_in(body).is_some(),
        OperationKind::Forget => forget_args(body).is_some(),
        OperationKind::BatchForget => batch_forget_nodes(body).is_some(),
        OperationKind::Lookup => lookup_args(body).is_some(),
        OperationKind::GetAttr => getattr_args(body).is_some(),
        OperationKind::SetAttr => setattr_args(body).is_some(),
        OperationKind::SymLink => symlink_args(body).is_some(),
        OperationKind::MkNod => mknod_args(body).is_some(),
        OperationKind::MkDir => mkdir_args(body).is_some(),
        OperationKind::Unlink => unlink_args(body).is_some(),
        OperationKind::RmDir => rmdir_args(body).is_some(),
        OperationKind::Rename => rename_args(body).is_some(),
        OperationKind::Rename2 => rename2_args(body).is_some(),
        OperationKind::Link => link_args(body).is_some(),
        OperationKind::Open => open_args(body).is_some(),
        OperationKind::Read => read_args(body).is_some(),
        OperationKind::Write => write_args(body).is_some(),
        OperationKind::Release => release_args(body).is_some(),
        OperationKind::FSync => fsync_args(body).is_some(),
        OperationKind::SetXAttr => setxattr_args(body).is_some(),
        OperationKind::GetXAttr => getxattr_args(body).is_some(),
        OperationKind::ListXAttr => listxattr_args(body).is_some(),
        OperationKind::RemoveXAttr => removexattr_args(body).is_some(),
        OperationKind::Flush => flush_args(body).is_some(),
        OperationKind::OpenDir => opendir_args(body).is_some(),
        OperationKind::ReadDir => readdir_args(body).is_some(),
        OperationKind::ReleaseDir => releasedir_args(body).is_some(),
        OperationKind::FSyncDir => fsyncdir_args(body).is_some(),
        OperationKind::GetLk => getlk_args(body).is_some(),
        OperationKind::SetLk => setlk_args(body).is_some(),
        OperationKind::SetLkW => setlkw_args(body).is_some(),
        OperationKind::Access => access_args(body).is_some(),
        OperationKind::Create => create_args(body).is_some(),
        OperationKind::BMap => bmap_args(body).is_some(),
        OperationKind::IoCtl { .. } => ioctl_args(body).is_some(),
        OperationKind::Poll => poll_args(body).is_some(),
        OperationKind::FAllocate => fallocate_args(body).is_some(),
        OperationKind::ReadDirPlus => readdirplus_args(body).is_some(),
        OperationKind::Lseek => lseek_args(body).is_some(),
        OperationKind::CopyFileRange => copy_file_range_args(body).is_some(),
        OperationKind::SetVolName => setvolname_args(body).is_some(),
        OperationKind::Exchange => exchange_args(body).is_some(),
        _ => true,
    }
}

/// What serving a request of kind `kind` with body `body` does once its route lets it
/// through to the filesystem: when its arguments can be read, the filesystem method of
/// its operation is called with them and with a reply container holding `h` (for the
/// directory listings, one limited to the size the kernel asked for, overriding the
/// attribute time-to-live as `override_ttl` says), and the method's hook relates the
/// filesystem `before` to the filesystem `after`; otherwise, and for an operation that
/// no method serves, the filesystem is left alone and `h` answers `ENOSYS`.
pub open spec fn spec_served<S: ReplySender, FS: Filesystem<S>>(
    before: FS,
    after: FS,
    meta: RequestMeta,
    ino: u64,
    kind: OperationKind,
    body: Seq<u8>,
    h: ReplyHandler<S>,
    override_ttl: bool,
) -> bool {
    let unanswered = after == before && h.replies(spec_error_field(ENOSYS), Seq::empty());
    match kind {
        OperationKind::Lookup => match spec_lookup_args(body) {
            Some(name) => exists|c: ReplyEntry<Option<ReplyHandler<S>>>| #![trigger before.looked_up(&after, meta, ino, name, c)] c.callback() == Some(h) && before.looked_up(&after, meta, ino, name, c),
            None => unanswered,
        },
        OperationKind::GetAttr => match spec_getattr_args(body) {
            Some(args) => exists|c: ReplyAttr<Option<ReplyHandler<S>>>| #![trigger before.got_attr(&after, meta, ino, args, c)] c.callback() == Some(h) && before.got_attr(&after, meta, ino, args, c),
            None => unanswered,
        },
        OperationKind::SetAttr => match spec_setattr_args(body) {
            Some(args) => exists|c: ReplyAttr<Option<ReplyHandler<S>>>| #![trigger before.set_attr(&after, meta, ino, args, c)] c.callback() == Some(h) && before.set_attr(&after, meta, ino, args, c),
            None => unanswered,
        },
        OperationKind::ReadLink => exists|c: ReplyData<Option<ReplyHandler<S>>>| #![trigger before.read_link(&after, meta, ino, c)] c.callback() == Some(h) && before.read_link(&after, meta, ino, c),
        OperationKind::SymLink => match spec_symlink_args(body) {
            Some((name, link)) => exists|c: ReplyEntry<Option<ReplyHandler<S>>>| #![trigger before.made_symlink(&after, meta, ino, name, link, c)] c.callback() == Some(h) && before.made_symlink(&after, meta, ino, name, link, c),
            None => unanswered,
        },
        OperationKind::MkNod => match spec_mknod_args(body) {
            Some((args, name)) => exists|c: ReplyEntry<Option<ReplyHandler<S>>>| #![trigger before.made_node(&after, meta, ino, args, name, c)] c.callback() == Some(h) && before.made_node(&after, meta, ino, args, name, c),
            None => unanswered,
        },
        OperationKind::MkDir => match spec_mkdir_args(body) {
            Some((args, name)) => exists|c: ReplyEntry<Option<ReplyHandler<S>>>| #![trigger before.made_dir(&after, meta, ino, args, name, c)] c.callback() == Some(h) && before.made_dir(&after, meta, ino, args, name, c),
            None => unanswered,
        },
        OperationKind::Unlink => match spec_unlink_args(body) {
            Some(name) => exists|c: ReplyEmpty<Option<ReplyHandler<S>>>| #![trigger before.unlinked(&after, meta, ino, name, c)] c.callback() == Some(h) && before.unlinked(&after, meta, ino, name, c),
            None => unanswered,
        },
        OperationKind::RmDir => match spec_rmdir_args(body) {
            Some(name) => exists|c: ReplyEmpty<Option<ReplyHandler<S>>>| #![trigger before.removed_dir(&after, meta, ino, name, c)] c.callback() == Some(h) && before.removed_dir(&after, meta, ino, name, c),
            None => unanswered,
        },
        OperationKind::Rename => match spec_rename_args(body) {
            Some((args, name, newname)) => exists|c: ReplyEmpty<Option<ReplyHandler<S>>>| #![trigger before.renamed(&after, meta, ino, args, name, newname, c)] c.callback() == Some(h) && before.renamed(&after, meta, ino, args, name, newname, c),
            None => unanswered,
        },
        OperationKind::Rename2 => match spec_rename2_args(body) {
            Some((args, name, newname)) => exists|c: ReplyEmpty<Option<ReplyHandler<S>>>| #![trigger before.renamed(&after, meta, ino, args, name, newname, c)] c.callback() == Some(h) && before.renamed(&after, meta, ino, args, name, newname, c),
            None => unanswered,
        },
        OperationKind::Link => match spec_link_args(body) {
            Some((args, name)) => exists|c: ReplyEntry<Option<ReplyHandler<S>>>| #![trigger before.linked(&after, meta, ino, args, name, c)] c.callback() == Some(h) && before.linked(&after, meta, ino, args, name, c),
            None => unanswered,
        },
        OperationKind::Open => match spec_open_args(body) {
            Some(args) => exists|c: ReplyOpen<Option<ReplyHandler<S>>>| #![trigger before.opened(&after, meta, ino, args, c)] c.callback() == Some(h) && before.opened(&after, meta, ino, args, c),
            None => unanswered,
        },
        OperationKind::Read => match spec_read_args(body) {
            Some(args) => exists|c: ReplyData<Option<ReplyHandler<S>>>| #![trigger before.read_from(&after, meta, ino, args, c)] c.callback() == Some(h) && before.read_from(&after, meta, ino, args, c),
            None => unanswered,
        },
        OperationKind::Write => match spec_write_args(body) {
            Some((args, data)) => exists|c: ReplyWrite<Option<ReplyHandler<S>>>| #![trigger before.written_to(&after, meta, ino, args, data, c)] c.callback() == Some(h) && before.written_to(&after, meta, ino, args, data, c),
            None => unanswered,
        },
        OperationKind::StatFs => exists|c: ReplyStatfs<Option<ReplyHandler<S>>>| #![trigger before.stat_fs(&after, meta, ino, c)] c.callback() == Some(h) && before.stat_fs(&after, meta, ino, c),
        OperationKind::Release => match spec_release_args(body) {
            Some(args) => exists|c: ReplyEmpty<Option<ReplyHandler<S>>>| #![trigger before.released(&after, meta, ino, args, c)] c.callback() == Some(h) && before.released(&after, meta, ino, args, c),
            None => unanswered,
        },
        OperationKind::FSync => match spec_fsync_args(body) {
            Some(args) => exists|c: ReplyEmpty<Option<ReplyHandler<S>>>| #![trigger before.synced(&after, meta, ino, args, c)] c.callback() == Some(h) && before.synced(&after, meta, ino, args, c),
            None => unanswered,
        },
        OperationKind::SetXAttr => match spec_setxattr_args(body) {
            Some((args, name, value)) => exists|c: ReplyEmpty<Option<ReplyHandler<S>>>| #![trigger before.set_xattr(&after, meta, ino, args, name, value, c)] c.callback() == Some(h) && before.set_xattr(&after, meta, ino, args, name, value, c),
            None => unanswered,
        },
        OperationKind::GetXAttr => match spec_getxattr_args(body) {
            Some((args, name)) => exists|c: ReplyXattr<Option<ReplyHandler<S>>>| #![trigger before.got_xattr(&after, meta, ino, args, name, c)] c.callback() == Some(h) && before.got_xattr(&after, meta, ino, args, name, c),
            None => unanswered,
        },
        OperationKind::ListXAttr => match spec_listxattr_args(body) {
            Some(args) => exists|c: ReplyXattr<Option<ReplyHandler<S>>>| #![trigger before.listed_xattr(&after, meta, ino, args, c)] c.callback() == Some(h) && before.listed_xattr(&after, meta, ino, args, c),
            None => unanswered,
        },
        OperationKind::RemoveXAttr => match spec_removexattr_args(body) {
            Some(name) => exists|c: ReplyEmpty<Option<ReplyHandler<S>>>| #![trigger before.removed_xattr(&after, meta, ino, name, c)] c.callback() == Some(h) && before.removed_xattr(&after, meta, ino, name, c),
            None => unanswered,
        },
        OperationKind::Flush => match spec_flush_args(body) {
            Some(args) => exists|c: ReplyEmpty<Option<ReplyHandler<S>>>| #![trigger before.flushed(&after, meta, ino, args, c)] c.callback() == Some(h) && before.flushed(&after, meta, ino, args, c),
            None => unanswered,
        },
        OperationKind::OpenDir => match spec_opendir_args(body) {
            Some(args) => exists|c: ReplyOpen<Option<ReplyHandler<S>>>| #![trigger before.opened_dir(&after, meta, ino, args, c)] c.callback() == Some(h) && before.opened_dir(&after, meta, ino, args, c),
            None => unanswered,
        },
        OperationKind::ReadDir => match spec_readdir_args(body) {
            Some(args) => exists|c: ReplyDirectory<DirectoryHandler<S>>| #![trigger before.read_dir(&after, meta, ino, args, c)] c.callback().handler() == Some(h) && c.callback().listing() == Some(Seq::<u8>::empty()) && c.callback().limit() == args.size as usize && before.read_dir(&after, meta, ino, args, c),
            None => unanswered,
        },
        OperationKind::ReleaseDir => match spec_releasedir_args(body) {
            Some(args) => exists|c: ReplyEmpty<Option<ReplyHandler<S>>>| #![trigger before.released_dir(&after, meta, ino, args, c)] c.callback() == Some(h) && before.released_dir(&after, meta, ino, args, c),
            None => unanswered,
        },
        OperationKind::FSyncDir => match spec_fsyncdir_args(body) {
            Some(args) => exists|c: ReplyEmpty<Option<ReplyHandler<S>>>| #![trigger before.synced_dir(&after, meta, ino, args, c)] c.callback() == Some(h) && before.synced_dir(&after, meta, ino, args, c),
            None => unanswered,
        },
        OperationKind::GetLk => match spec_getlk_args(body) {
            Some(args) => exists|c: ReplyLock<Option<ReplyHandler<S>>>| #![trigger before.got_lock(&after, meta, ino, args, c)] c.callback() == Some(h) && before.got_lock(&after, meta, ino, args, c),
            None => unanswered,
        },
        OperationKind::SetLk => match spec_setlk_args(body) {
            Some(args) => exists|c: ReplyEmpty<Option<ReplyHandler<S>>>| #![trigger before.set_lock(&after, meta, ino, args, false, c)] c.callback() == Some(h) && before.set_lock(&after, meta, ino, args, false, c),
            None => unanswered,
        },
        OperationKind::SetLkW => match spec_setlkw_args(body) {
            Some(args) => exists|c: ReplyEmpty<Option<ReplyHandler<S>>>| #![trigger before.set_lock(&after, meta, ino, args, true, c)] c.callback() == Some(h) && before.set_lock(&after, meta, ino, args, true, c),
            None => unanswered,
        },
        OperationKind::Access => match spec_access_args(body) {
            Some(args) => exists|c: ReplyEmpty<Option<ReplyHandler<S>>>| #![trigger before.accessed(&after, meta, ino, args, c)] c.callback() == Some(h) && before.accessed(&after, meta, ino, args, c),
            None => unanswered,
        },
        OperationKind::Create => match spec_create_args(body) {
            Some((args, name)) => exists|c: ReplyCreate<Option<ReplyHandler<S>>>| #![trigger before.created(&after, meta, ino, args, name, c)] c.callback() == Some(h) && before.created(&after, meta, ino, args, name, c),
            None => unanswered,
        },
        OperationKind::BMap => match spec_bmap_args(body) {
            Some(args) => exists|c: ReplyBmap<Option<ReplyHandler<S>>>| #![trigger before.mapped(&after, meta, ino, args, c)] c.callback() == Some(h) && before.mapped(&after, meta, ino, args, c),
            None => unanswered,
        },
        OperationKind::IoCtl { .. } => match spec_ioctl_args(body) {
            Some((args, data)) => exists|c: ReplyIoctl<Option<ReplyHandler<S>>>| #![trigger before.controlled(&after, meta, ino, args, data, c)] c.callback() == Some(h) && before.controlled(&after, meta, ino, args, data, c),
            None => unanswered,
        },
        OperationKind::Poll => match spec_poll_args(body) {
            Some(args) => exists|c: ReplyPoll<Option<ReplyHandler<S>>>| #![trigger before.polled(&after, meta, ino, args, c)] c.callback() == Some(h) && before.polled(&after, meta, ino, args, c),
            None => unanswered,
        },
        OperationKind::FAllocate => match spec_fallocate_args(body) {
            Some(args) => exists|c: ReplyEmpty<Option<ReplyHandler<S>>>| #![trigger before.allocated(&after, meta, ino, args, c)] c.callback() == Some(h) && before.allocated(&after, meta, ino, args, c),
            None => unanswered,
        },
        OperationKind::ReadDirPlus => match spec_readdirplus_args(body) {
            Some(args) => exists|c: ReplyDirectoryPlus<DirectoryPlusHandler<S>>| #![trigger before.read_dir_plus(&after, meta, ino, args, c)] c.callback().handler() == Some(h) && c.callback().listing() == Some(Seq::<u8>::empty()) && c.callback().limit() == args.size as usize && c.callback().overrides_attr_ttl() == override_ttl && before.read_dir_plus(&after, meta, ino, args, c),
            None => unanswered,
        },
        OperationKind::Lseek => match spec_lseek_args(body) {
            Some(args) => exists|c: ReplyLseek<Option<ReplyHandler<S>>>| #![trigger before.sought(&after, meta, ino, args, c)] c.callback() == Some(h) && before.sought(&after, meta, ino, args, c),
            None => unanswered,
        },
        OperationKind::CopyFileRange => match spec_copy_file_range_args(body) {
            Some(args) => exists|c: ReplyWrite<Option<ReplyHandler<S>>>| #![trigger before.copied(&after, meta, ino, args, c)] c.callback() == Some(h) && before.copied(&after, meta, ino, args, c),
            None => unanswered,
        },
        OperationKind::SetVolName => match spec_setvolname_args(body) {
            Some(name) => exists|c: ReplyEmpty<Option<ReplyHandler<S>>>| #![trigger before.set_vol_name(&after, meta, name, c)] c.callback() == Some(h) && before.set_vol_name(&after, meta, name, c),
            None => unanswered,
        },
        OperationKind::GetXTimes => exists|c: ReplyXTimes<Option<ReplyHandler<S>>>| #![trigger before.got_xtimes(&after, meta, ino, c)] c.callback() == Some(h) && before.got_xtimes(&after, meta, ino, c),
        OperationKind::Exchange => match spec_exchange_args(body) {
            Some((args, name, newname)) => exists|c: ReplyEmpty<Option<ReplyHandler<S>>>| #![trigger before.exchanged(&after, meta, args, name, newname, c)] c.callback() == Some(h) && before.exchanged(&after, meta, args, name, newname, c),
            None => unanswered,
        },
        _ => unanswered,
    }
}

#[verifier::rlimit(100)]
#[verifier::spinoff_prover]
/// Hand a request that its route lets through (`override_ttl` as the route says) to
/// the filesystem method of its operation, as `spec_served` says.
fn call<S: ReplySender, FS: Filesystem<S>>(
    fs: &mut FS,
    meta: &RequestMeta,
    ino: u64,
    kind: OperationKind,
    body: &[u8],
    reply: ReplyHandler<S>,
    override_ttl: bool,
)
    ensures
        !spec_reaches_filesystem(kind, body@) ==> *final(fs) == *old(fs)
            && reply.replies(spec_error_field(ENOSYS), Seq::empty()),
        spec_served(*old(fs), *final(fs), *meta, ino, kind, body@, reply, override_ttl),
{
    match kind {
        OperationKind::Lookup => serve_lookup(fs, meta, ino, body, reply, override_ttl),
        OperationKind::GetAttr => serve_getattr(fs, meta, ino, body, reply, override_ttl),
        OperationKind::SetAttr => serve_setattr(fs, meta, ino, body, reply, override_ttl),
        OperationKind::ReadLink => serve_readlink(fs, meta, ino, body, reply, override_ttl),
        OperationKind::SymLink => serve_symlink(fs, meta, ino, body, reply, override_ttl),
        OperationKind::MkNod => serve_mknod(fs, meta, ino, body, reply, override_ttl),
        OperationKind::MkDir => serve_mkdir(fs, meta, ino, body, reply, override_ttl),
        OperationKind::Unlink => serve_unlink(fs, meta, ino, body, reply, override_ttl),
        OperationKind::RmDir => serve_rmdir(fs, meta, ino, body, reply, override_ttl),
        OperationKind::Rename => serve_rename(fs, meta, ino, body, reply, override_ttl),
        OperationKind::Rename2 => serve_rename2(fs, meta, ino, body, reply, override_ttl),
        OperationKind::Link => serve_link(fs, meta, ino, body, reply, override_ttl),
        OperationKind::Open => serve_open(fs, meta, ino, body, reply, override_ttl),
        OperationKind::Read => serve_read(fs, meta, ino, body, reply, override_ttl),
        OperationKind::Write => serve_write(fs, meta, ino, body, reply, override_ttl),
        OperationKind::StatFs => serve_statfs(fs, meta, ino, body, reply, override_ttl),
        OperationKind::Release => serve_release(fs, meta, ino, body, reply, override_ttl),
        OperationKind::FSync => serve_fsync(fs, meta, ino, body, reply, override_ttl),
        OperationKind::SetXAttr => serve_setxattr(fs, meta, ino, body, reply, override_ttl),
        OperationKind::GetXAttr => serve_getxattr(fs, meta, ino, body, reply, override_ttl),
        OperationKind::ListXAttr => serve_listxattr(fs, meta, ino, body, reply, override_ttl),
        OperationKind::RemoveXAttr => serve_removexattr(fs, meta, ino, body, reply, override_ttl),
        OperationKind::Flush => serve_flush(fs, meta, ino, body, reply, override_ttl),
        OperationKind::OpenDir => serve_opendir(fs, meta, ino, body, reply, override_ttl),
        OperationKind::ReadDir => serve_readdir(fs, meta, ino, body, reply, override_ttl),
        OperationKind::ReleaseDir => serve_releasedir(fs, meta, ino, body, reply, override_ttl),
        OperationKind::FSyncDir => serve_fsyncdir(fs, meta, ino, body, reply, override_ttl),
        OperationKind::GetLk => serve_getlk(fs, meta, ino, body, reply, override_ttl),
        OperationKind::SetLk => serve_setlk(fs, meta, ino, body, reply, override_ttl),
        OperationKind::SetLkW => serve_setlkw(fs, meta, ino, body, reply, override_ttl),
        OperationKind::Access => serve_access(fs, meta, ino, body, reply, override_ttl),
        OperationKind::Create => serve_create(fs, meta, ino, body, reply, override_ttl),
        OperationKind::BMap => serve_bmap(fs, meta, ino, body, reply, override_ttl),
        OperationKind::IoCtl { .. } => serve_ioctl(fs, meta, ino, body, reply, override_ttl),
        OperationKind::Poll => serve_poll(fs, meta, ino, body, reply, override_ttl),
        OperationKind::FAllocate => serve_fallocate(fs, meta, ino, body, reply, override_ttl),
        OperationKind::ReadDirPlus => serve_readdirplus(fs, meta, ino, body, reply, override_ttl),
        OperationKind::Lseek => serve_lseek(fs, meta, ino, body, reply, override_ttl),
        OperationKind::CopyFileRange => serve_copyfilerange(fs, meta, ino, body, reply, override_ttl),
        OperationKind::SetVolName => serve_setvolname(fs, meta, ino, body, reply, override_ttl),
        OperationKind::GetXTimes => serve_getxtimes(fs, meta, ino, body, reply, override_ttl),
        OperationKind::Exchange => serve_exchange(fs, meta, ino, body, reply, override_ttl),
        _ => reply.error(enosys()),
    }
}

/// Serve a Lookup request.
fn serve_lookup<S: ReplySender, FS: Filesystem<S>>(
    fs: &mut FS,
    meta: &RequestMeta,
    ino: u64,
    body: &[u8],
    reply: ReplyHandler<S>,
    override_ttl: bool,
)
    ensures
        spec_lookup_args(body@) is None ==> *final(fs) == *old(fs) && reply.replies(spec_error_field(ENOSYS), Seq::empty()),
        spec_lookup_args(body@) matches Some(name) ==> (exists|c: ReplyEntry<Option<ReplyHandler<S>>>| #![trigger old(fs).looked_up(final(fs), *meta, ino, name, c)] c.callback() == Some(reply) && old(fs).looked_up(final(fs), *meta, ino, name, c)),
{
    match lookup_args(body) {
        Some(name) => {
            assert(spec_lookup_args(body@) == Some(name@));
            let c = ReplyEntry::new(Some(reply));
            let ghost gc = c;
            let ghost before = *fs;
            fs.lookup(meta, ino, name, c);
            proof {
                let c = gc;
                assert(c.callback() == Some(reply) && before.looked_up(fs, *meta, ino, name@, c));
            }
            assert(exists|c: ReplyEntry<Option<ReplyHandler<S>>>| #![trigger before.looked_up(fs, *meta, ino, name@, c)] c.callback() == Some(reply) && before.looked_up(fs, *meta, ino, name@, c));
        },
        None => reply.error(enosys()),
    }
}

/// Serve a GetAttr request.
fn serve_getattr<S: ReplySender, FS: Filesystem<S>>(
    fs: &mut FS,
    meta: &RequestMeta,
    ino: u64,
    body: &[u8],
    reply: ReplyHandler<S>,
    override_ttl: bool,
)
    ensures
        spec_getattr_args(body@) is None ==> *final(fs) == *old(fs) && reply.replies(spec_error_field(ENOSYS), Seq::empty()),
        spec_getattr_args(body@) matches Some(args) ==> (exists|c: ReplyAttr<Option<ReplyHandler<S>>>| #![trigger old(fs).got_attr(final(fs), *meta, ino, args, c)] c.callback() == Some(reply) && old(fs).got_attr(final(fs), *meta, ino, args, c)),
{
    match getattr_args(body) {
        Some(args) => {
            assert(spec_getattr_args(body@) == Some(args));
            let c = ReplyAttr::new(Some(reply));
            let ghost gc = c;
            let ghost before = *fs;
            fs.getattr(meta, ino, args, c);
            proof {
                let c = gc;
                assert(c.callback() == Some(reply) && before.got_attr(fs, *meta, ino, args, c));
            }
            assert(exists|c: ReplyAttr<Option<ReplyHandler<S>>>| #![trigger before.got_attr(fs, *meta, ino, args, c)] c.callback() == Some(reply) && before.got_attr(fs, *meta, ino, args, c));
        },
        None => reply.error(enosys()),
    }
}

/// Serve a SetAttr request.
fn serve_setattr<S: ReplySender, FS: Filesystem<S>>(
    fs: &mut FS,
    meta: &RequestMeta,
    ino: u64,
    body: &[u8],
    reply: ReplyHandler<S>,
    override_ttl: bool,
)
    ensures
        spec_setattr_args(body@) is None ==> *final(fs) == *old(fs) && reply.replies(spec_error_field(ENOSYS), Seq::empty()),
        spec_setattr_args(body@) matches Some(args) ==> (exists|c: ReplyAttr<Option<ReplyHandler<S>>>| #![trigger old(fs).set_attr(final(fs), *meta, ino, args, c)] c.callback() == Some(reply) && old(fs).set_attr(final(fs), *meta, ino, args, c)),
{
    match setattr_args(body) {
        Some(args) => {
            assert(spec_setattr_args(body@) == Some(args));
            let c = ReplyAttr::new(Some(reply));
            let ghost gc = c;
            let ghost before = *fs;
            fs.setattr(meta, ino, args, c);
            proof {
                let c = gc;
                assert(c.callback() == Some(reply) && before.set_attr(fs, *meta, ino, args, c));
            }
            assert(exists|c: ReplyAttr<Option<ReplyHandler<S>>>| #![trigger before.set_attr(fs, *meta, ino, args, c)] c.callback() == Some(reply) && before.set_attr(fs, *meta, ino, args, c));
        },
        None => reply.error(enosys()),
    }
}

/// Serve a ReadLink request.
fn serve_readlink<S: ReplySender, FS: Filesystem<S>>(
    fs: &mut FS,
    meta: &RequestMeta,
    ino: u64,
    body: &[u8],
    reply: ReplyHandler<S>,
    override_ttl: bool,
)
    ensures
        exists|c: ReplyData<Option<ReplyHandler<S>>>| #![trigger old(fs).read_link(final(fs), *meta, ino, c)] c.callback() == Some(reply) && old(fs).read_link(final(fs), *meta, ino, c),
{
    {
        let c = ReplyData::new(Some(reply));
        let ghost gc = c;
        let ghost before = *fs;
        fs.readlink(meta, ino, c);
        proof {
            let c = gc;
            assert(c.callback() == Some(reply) && before.read_link(fs, *meta, ino, c));
        }
        assert(exists|c: ReplyData<Option<ReplyHandler<S>>>| #![trigger before.read_link(fs, *meta, ino, c)] c.callback() == Some(reply) && before.read_link(fs, *meta, ino, c));
    }
}

/// Serve a SymLink request.
fn serve_symlink<S: ReplySender, FS: Filesystem<S>>(
    fs: &mut FS,
    meta: &RequestMeta,
    ino: u64,
    body: &[u8],
    reply: ReplyHandler<S>,
    override_ttl: bool,
)
    ensures
        spec_symlink_args(body@) is None ==> *final(fs) == *old(fs) && reply.replies(spec_error_field(ENOSYS), Seq::empty()),
        spec_symlink_args(body@) is Some ==> ({ let (name, link) = spec_symlink_args(body@)->0; exists|c: ReplyEntry<Option<ReplyHandler<S>>>| #![trigger old(fs).made_symlink(final(fs), *meta, ino, name, link, c)] c.callback() == Some(reply) && old(fs).made_symlink(final(fs), *meta, ino, name, link, c) }),
{
    match symlink_args(body) {
        Some((name, link)) => {
            assert(spec_symlink_args(body@) == Some((name@, link@)));
            let c = ReplyEntry::new(Some(reply));
            let ghost gc = c;
            let ghost before = *fs;
            fs.symlink(meta, ino, name, link, c);
            proof {
                let c = gc;
                assert(c.callback() == Some(reply) && before.made_symlink(fs, *meta, ino, name@, link@, c));
            }
            assert(exists|c: ReplyEntry<Option<ReplyHandler<S>>>| #![trigger before.made_symlink(fs, *meta, ino, name@, link@, c)] c.callback() == Some(reply) && before.made_symlink(fs, *meta, ino, name@, link@, c));
            proof {
                let (p0, p1) = spec_symlink_args(body@)->Some_0;
                assert(p0 == name@);
                assert(p1 == link@);
            }
        },
        None => reply.error(enosys()),
    }
}

/// Serve a MkNod request.
fn serve_mknod<S: ReplySender, FS: Filesystem<S>>(
    fs: &mut FS,
    meta: &RequestMeta,
    ino: u64,
    body: &[u8],
    reply: ReplyHandler<S>,
    override_ttl: bool,
)
    ensures
        spec_mknod_args(body@) is None ==> *final(fs) == *old(fs) && reply.replies(spec_error_field(ENOSYS), Seq::empty()),
        spec_mknod_args(body@) is Some ==> ({ let (args, name) = spec_mknod_args(body@)->0; exists|c: ReplyEntry<Option<ReplyHandler<S>>>| #![trigger old(fs).made_node(final(fs), *meta, ino, args, name, c)] c.callback() == Some(reply) && old(fs).made_node(final(fs), *meta, ino, args, name, c) }),
{
    match mknod_args(body) {
        Some((args, name)) => {
            assert(spec_mknod_args(body@) == Some((args, name@)));
            let c = ReplyEntry::new(Some(reply));
            let ghost gc = c;
            let ghost before = *fs;
            fs.mknod(meta, ino, args, name, c);
            proof {
                let c = gc;
                assert(c.callback() == Some(reply) && before.made_node(fs, *meta, ino, args, name@, c));
            }
            assert(exists|c: ReplyEntry<Option<ReplyHandler<S>>>| #![trigger before.made_node(fs, *meta, ino, args, name@, c)] c.callback() == Some(reply) && before.made_node(fs, *meta, ino, args, name@, c));
            proof {
                let (p0, p1) = spec_mknod_args(body@)->Some_0;
                assert(p0 == args);
                assert(p1 == name@);
            }
        },
        None => reply.error(enosys()),
    }
}

/// Serve a MkDir request.
fn serve_mkdir<S: ReplySender, FS: Filesystem<S>>(
    fs: &mut FS,
    meta: &RequestMeta,
    ino: u64,
    body: &[u8],
    reply: ReplyHandler<S>,
    override_ttl: bool,
)
    ensures
        spec_mkdir_args(body@) is None ==> *final(fs) == *old(fs) && reply.replies(spec_error_field(ENOSYS), Seq::empty()),
        spec_mkdir_args(body@) is Some ==> ({ let (args, name) = spec_mkdir_args(body@)->0; exists|c: ReplyEntry<Option<ReplyHandler<S>>>| #![trigger old(fs).made_dir(final(fs), *meta, ino, args, name, c)] c.callback() == Some(reply) && old(fs).made_dir(final(fs), *meta, ino, args, name, c) }),
{
    match mkdir_args(body) {
        Some((args, name)) => {
            assert(spec_mkdir_args(body@) == Some((args, name@)));
            let c = ReplyEntry::new(Some(reply));
            let ghost gc = c;
            let ghost before = *fs;
            fs.mkdir(meta, ino, args, name, c);
            proof {
                let c = gc;
                assert(c.callback() == Some(reply) && before.made_dir(fs, *meta, ino, args, name@, c));
            }
            assert(exists|c: ReplyEntry<Option<ReplyHandler<S>>>| #![trigger before.made_dir(fs, *meta, ino, args, name@, c)] c.callback() == Some(reply) && before.made_dir(fs, *meta, ino, args, name@, c));
            proof {
                let (p0, p1) = spec_mkdir_args(body@)->Some_0;
                assert(p0 == args);
                assert(p1 == name@);
            }
        },
        None => reply.error(enosys()),
    }
}

/// Serve a Unlink request.
fn serve_unlink<S: ReplySender, FS: Filesystem<S>>(
    fs: &mut FS,
    meta: &RequestMeta,
    ino: u64,
    body: &[u8],
    reply: ReplyHandler<S>,
    override_ttl: bool,
)
    ensures
        spec_unlink_args(body@) is None ==> *final(fs) == *old(fs) && reply.replies(spec_error_field(ENOSYS), Seq::empty()),
        spec_unlink_args(body@) matches Some(name) ==> (exists|c: ReplyEmpty<Option<ReplyHandler<S>>>| #![trigger old(fs).unlinked(final(fs), *meta, ino, name, c)] c.callback() == Some(reply) && old(fs).unlinked(final(fs), *meta, ino, name, c)),
{
    match unlink_args(body) {
        Some(name) => {
            assert(spec_unlink_args(body@) == Some(name@));
            let c = ReplyEmpty::new(Some(reply));
            let ghost gc = c;
            let ghost before = *fs;
            fs.unlink(meta, ino, name, c);
            proof {
                let c = gc;
                assert(c.callback() == Some(reply) && before.unlinked(fs, *meta, ino, name@, c));
            }
            assert(exists|c: ReplyEmpty<Option<ReplyHandler<S>>>| #![trigger before.unlinked(fs, *meta, ino, name@, c)] c.callback() == Some(reply) && before.unlinked(fs, *meta, ino, name@, c));
        },
        None => reply.error(enosys()),
    }
}

/// Serve a RmDir request.
fn serve_rmdir<S: ReplySender, FS: Filesystem<S>>(
    fs: &mut FS,
    meta: &RequestMeta,
    ino: u64,
    body: &[u8],
    reply: ReplyHandler<S>,
    override_ttl: bool,
)
    ensures
        spec_rmdir_args(body@) is None ==> *final(fs) == *old(fs) && reply.replies(spec_error_field(ENOSYS), Seq::empty()),
        spec_rmdir_args(body@) matches Some(name) ==> (exists|c: ReplyEmpty<Option<ReplyHandler<S>>>| #![trigger old(fs).removed_dir(final(fs), *meta, ino, name, c)] c.callback() == Some(reply) && old(fs).removed_dir(final(fs), *meta, ino, name, c)),
{
    match rmdir_args(body) {
        Some(name) => {
            assert(spec_rmdir_args(body@) == Some(name@));
            let c = ReplyEmpty::new(Some(reply));
            let ghost gc = c;
            let ghost before = *fs;
            fs.rmdir(meta, ino, name, c);
            proof {
                let c = gc;
                assert(c.callback() == Some(reply) && before.removed_dir(fs, *meta, ino, name@, c));
            }
            assert(exists|c: ReplyEmpty<Option<ReplyHandler<S>>>| #![trigger before.removed_dir(fs, *meta, ino, name@, c)] c.callback() == Some(reply) && before.removed_dir(fs, *meta, ino, name@, c));
        },
        None => reply.error(enosys()),
    }
}

/// Serve a Rename request.
fn serve_rename<S: ReplySender, FS: Filesystem<S>>(
    fs: &mut FS,
    meta: &RequestMeta,
    ino: u64,
    body: &[u8],
    reply: ReplyHandler<S>,
    override_ttl: bool,
)
    ensures
        spec_rename_args(body@) is None ==> *final(fs) == *old(fs) && reply.replies(spec_error_field(ENOSYS), Seq::empty()),
        spec_rename_args(body@) is Some ==> ({ let (args, name, newname) = spec_rename_args(body@)->0; exists|c: ReplyEmpty<Option<ReplyHandler<S>>>| #![trigger old(fs).renamed(final(fs), *meta, ino, args, name, newname, c)] c.callback() == Some(reply) && old(fs).renamed(final(fs), *meta, ino, args, name, newname, c) }),
{
    match rename_args(body) {
        Some((args, name, newname)) => {
            assert(spec_rename_args(body@) == Some((args, name@, newname@)));
            let c = ReplyEmpty::new(Some(reply));
            let ghost gc = c;
            let ghost before = *fs;
            fs.rename(meta, ino, args, name, newname, c);
            proof {
                let c = gc;
                assert(c.callback() == Some(reply) && before.renamed(fs, *meta, ino, args, name@, newname@, c));
            }
            assert(exists|c: ReplyEmpty<Option<ReplyHandler<S>>>| #![trigger before.renamed(fs, *meta, ino, args, name@, newname@, c)] c.callback() == Some(reply) && before.renamed(fs, *meta, ino, args, name@, newname@, c));
            proof {
                let (p0, p1, p2) = spec_rename_args(body@)->Some_0;
                assert(p0 == args);
                assert(p1 == name@);
                assert(p2 == newname@);
            }
        },
        None => reply.error(enosys()),
    }
}

/// Serve a Rename2 request.
fn serve_rename2<S: ReplySender, FS: Filesystem<S>>(
    fs: &mut FS,
    meta: &RequestMeta,
    ino: u64,
    body: &[u8],
    reply: ReplyHandler<S>,
    override_ttl: bool,
)
    ensures
        spec_rename2_args(body@) is None ==> *final(fs) == *old(fs) && reply.replies(spec_error_field(ENOSYS), Seq::empty()),
        spec_rename2_args(body@) is Some ==> ({ let (args, name, newname) = spec_rename2_args(body@)->0; exists|c: ReplyEmpty<Option<ReplyHandler<S>>>| #![trigger old(fs).renamed(final(fs), *meta, ino, args, name, newname, c)] c.callback() == Some(reply) && old(fs).renamed(final(fs), *meta, ino, args, name, newname, c) }),
{
    match rename2_args(body) {
        Some((args, name, newname)) => {
            assert(spec_rename2_args(body@) == Some((args, name@, newname@)));
            let c = ReplyEmpty::new(Some(reply));
            let ghost gc = c;
            let ghost before = *fs;
            fs.rename(meta, ino, args, name, newname, c);
            proof {
                let c = gc;
                assert(c.callback() == Some(reply) && before.renamed(fs, *meta, ino, args, name@, newname@, c));
            }
            assert(exists|c: ReplyEmpty<Option<ReplyHandler<S>>>| #![trigger before.renamed(fs, *meta, ino, args, name@, newname@, c)] c.callback() == Some(reply) && before.renamed(fs, *meta, ino, args, name@, newname@, c));
            proof {
                let (p0, p1, p2) = spec_rename2_args(body@)->Some_0;
                assert(p0 == args);
                assert(p1 == name@);
                assert(p2 == newname@);
            }
        },
        None => reply.error(enosys()),
    }
}

/// Serve a Link request.
fn serve_link<S: ReplySender, FS: Filesystem<S>>(
    fs: &mut FS,
    meta: &RequestMeta,
    ino: u64,
    body: &[u8],
    reply: ReplyHandler<S>,
    override_ttl: bool,
)
    ensures
        spec_link_args(body@) is None ==> *final(fs) == *old(fs) && reply.replies(spec_error_field(ENOSYS), Seq::empty()),
        spec_link_args(body@) is Some ==> ({ let (args, name) = spec_link_args(body@)->0; exists|c: ReplyEntry<Option<ReplyHandler<S>>>| #![trigger old(fs).linked(final(fs), *meta, ino, args, name, c)] c.callback() == Some(reply) && old(fs).linked(final(fs), *meta, ino, args, name, c) }),
{
    match link_args(body) {
        Some((args, name)) => {
            assert(spec_link_args(body@) == Some((args, name@)));
            let c = ReplyEntry::new(Some(reply));
            let ghost gc = c;
            let ghost before = *fs;
            fs.link(meta, ino, args, name, c);
            proof {
                let c = gc;
                assert(c.callback() == Some(reply) && before.linked(fs, *meta, ino, args, name@, c));
            }
            assert(exists|c: ReplyEntry<Option<ReplyHandler<S>>>| #![trigger before.linked(fs, *meta, ino, args, name@, c)] c.callback() == Some(reply) && before.linked(fs, *meta, ino, args, name@, c));
            proof {
                let (p0, p1) = spec_link_args(body@)->Some_0;
                assert(p0 == args);
                assert(p1 == name@);
            }
        },
        None => reply.error(enosys()),
    }
}

/// Serve a Open request.
fn serve_open<S: ReplySender, FS: Filesystem<S>>(
    fs: &mut FS,
    meta: &RequestMeta,
    ino: u64,
    body: &[u8],
    reply: ReplyHandler<S>,
    override_ttl: bool,
)
    ensures
        spec_open_args(body@) is None ==> *final(fs) == *old(fs) && reply.replies(spec_error_field(ENOSYS), Seq::empty()),
        spec_open_args(body@) matches Some(args) ==> (exists|c: ReplyOpen<Option<ReplyHandler<S>>>| #![trigger old(fs).opened(final(fs), *meta, ino, args, c)] c.callback() == Some(reply) && old(fs).opened(final(fs), *meta, ino, args, c)),
{
    match open_args(body) {
        Some(args) => {
            assert(spec_open_args(body@) == Some(args));
            let c = ReplyOpen::new(Some(reply));
            let ghost gc = c;
            let ghost before = *fs;
            fs.open(meta, ino, args, c);
            proof {
                let c = gc;
                assert(c.callback() == Some(reply) && before.opened(fs, *meta, ino, args, c));
            }
            assert(exists|c: ReplyOpen<Option<ReplyHandler<S>>>| #![trigger before.opened(fs, *meta, ino, args, c)] c.callback() == Some(reply) && before.opened(fs, *meta, ino, args, c));
        },
        None => reply.error(enosys()),
    }
}

/// Serve a Read request.
fn serve_read<S: ReplySender, FS: Filesystem<S>>(
    fs: &mut FS,
    meta: &RequestMeta,
    ino: u64,
    body: &[u8],
    reply: ReplyHandler<S>,
    override_ttl: bool,
)
    ensures
        spec_read_args(body@) is None ==> *final(fs) == *old(fs) && reply.replies(spec_error_field(ENOSYS), Seq::empty()),
        spec_read_args(body@) matches Some(args) ==> (exists|c: ReplyData<Option<ReplyHandler<S>>>| #![trigger old(fs).read_from(final(fs), *meta, ino, args, c)] c.callback() == Some(reply) && old(fs).read_from(final(fs), *meta, ino, args, c)),
{
    match read_args(body) {
        Some(args) => {
            assert(spec_read_args(body@) == Some(args));
            let c = ReplyData::new(Some(reply));
            let ghost gc = c;
            let ghost before = *fs;
            fs.read(meta, ino, args, c);
            proof {
                let c = gc;
                assert(c.callback() == Some(reply) && before.read_from(fs, *meta, ino, args, c));
            }
            assert(exists|c: ReplyData<Option<ReplyHandler<S>>>| #![trigger before.read_from(fs, *meta, ino, args, c)] c.callback() == Some(reply) && before.read_from(fs, *meta, ino, args, c));
        },
        None => reply.error(enosys()),
    }
}

/// Serve a Write request.
fn serve_write<S: ReplySender, FS: Filesystem<S>>(
    fs: &mut FS,
    meta: &RequestMeta,
    ino: u64,
    body: &[u8],
    reply: ReplyHandler<S>,
    override_ttl: bool,
)
    ensures
        spec_write_args(body@) is None ==> *final(fs) == *old(fs) && reply.replies(spec_error_field(ENOSYS), Seq::empty()),
        spec_write_args(body@) is Some ==> ({ let (args, data) = spec_write_args(body@)->0; exists|c: ReplyWrite<Option<ReplyHandler<S>>>| #![trigger old(fs).written_to(final(fs), *meta, ino, args, data, c)] c.callback() == Some(reply) && old(fs).written_to(final(fs), *meta, ino, args, data, c) }),
{
    match write_args(body) {
        Some((args, data)) => {
            assert(spec_write_args(body@) == Some((args, data@)));
            let c = ReplyWrite::new(Some(reply));
            let ghost gc = c;
            let ghost before = *fs;
            fs.write(meta, ino, args, data, c);
            proof {
                let c = gc;
                assert(c.callback() == Some(reply) && before.written_to(fs, *meta, ino, args, data@, c));
            }
            assert(exists|c: ReplyWrite<Option<ReplyHandler<S>>>| #![trigger before.written_to(fs, *meta, ino, args, data@, c)] c.callback() == Some(reply) && before.written_to(fs, *meta, ino, args, data@, c));
            proof {
                let (p0, p1) = spec_write_args(body@)->Some_0;
                assert(p0 == args);
                assert(p1 == data@);
            }
        },
        None => reply.error(enosys()),
    }
}

/// Serve a StatFs request.
fn serve_statfs<S: ReplySender, FS: Filesystem<S>>(
    fs: &mut FS,
    meta: &RequestMeta,
    ino: u64,
    body: &[u8],
    reply: ReplyHandler<S>,
    override_ttl: bool,
)
    ensures
        exists|c: ReplyStatfs<Option<ReplyHandler<S>>>| #![trigger old(fs).stat_fs(final(fs), *meta, ino, c)] c.callback() == Some(reply) && old(fs).stat_fs(final(fs), *meta, ino, c),
{
    {
        let c = ReplyStatfs::new(Some(reply));
        let ghost gc = c;
        let ghost before = *fs;
        fs.statfs(meta, ino, c);
        proof {
            let c = gc;
            assert(c.callback() == Some(reply) && before.stat_fs(fs, *meta, ino, c));
        }
        assert(exists|c: ReplyStatfs<Option<ReplyHandler<S>>>| #![trigger before.stat_fs(fs, *meta, ino, c)] c.callback() == Some(reply) && before.stat_fs(fs, *meta, ino, c));
    }
}

/// Serve a Release request.
fn serve_release<S: ReplySender, FS: Filesystem<S>>(
    fs: &mut FS,
    meta: &RequestMeta,
    ino: u64,
    body: &[u8],
    reply: ReplyHandler<S>,
    override_ttl: bool,
)
    ensures
        spec_release_args(body@) is None ==> *final(fs) == *old(fs) && reply.replies(spec_error_field(ENOSYS), Seq::empty()),
        spec_release_args(body@) matches Some(args) ==> (exists|c: ReplyEmpty<Option<ReplyHandler<S>>>| #![trigger old(fs).released(final(fs), *meta, ino, args, c)] c.callback() == Some(reply) && old(fs).released(final(fs), *meta, ino, args, c)),
{
    match release_args(body) {
        Some(args) => {
            assert(spec_release_args(body@) == Some(args));
            let c = ReplyEmpty::new(Some(reply));
            let ghost gc = c;
            let ghost before = *fs;
            fs.release(meta, ino, args, c);
            proof {
                let c = gc;
                assert(c.callback() == Some(reply) && before.released(fs, *meta, ino, args, c));
            }
            assert(exists|c: ReplyEmpty<Option<ReplyHandler<S>>>| #![trigger before.released(fs, *meta, ino, args, c)] c.callback() == Some(reply) && before.released(fs, *meta, ino, args, c));
        },
        None => reply.error(enosys()),
    }
}

/// Serve a FSync request.
fn serve_fsync<S: ReplySender, FS: Filesystem<S>>(
    fs: &mut FS,
    meta: &RequestMeta,
    ino: u64,
    body: &[u8],
    reply: ReplyHandler<S>,
    override_ttl: bool,
)
    ensures
        spec_fsync_args(body@) is None ==> *final(fs) == *old(fs) && reply.replies(spec_error_field(ENOSYS), Seq::empty()),
        spec_fsync_args(body@) matches Some(args) ==> (exists|c: ReplyEmpty<Option<ReplyHandler<S>>>| #![trigger old(fs).synced(final(fs), *meta, ino, args, c)] c.callback() == Some(reply) && old(fs).synced(final(fs), *meta, ino, args, c)),
{
    match fsync_args(body) {
        Some(args) => {
            assert(spec_fsync_args(body@) == Some(args));
            let c = ReplyEmpty::new(Some(reply));
            let ghost gc = c;
            let ghost before = *fs;
            fs.fsync(meta, ino, args, c);
            proof {
                let c = gc;
                assert(c.callback() == Some(reply) && before.synced(fs, *meta, ino, args, c));
            }
            assert(exists|c: ReplyEmpty<Option<ReplyHandler<S>>>| #![trigger before.synced(fs, *meta, ino, args, c)] c.callback() == Some(reply) && before.synced(fs, *meta, ino, args, c));
        },
        None => reply.error(enosys()),
    }
}

/// Serve a SetXAttr request.
fn serve_setxattr<S: ReplySender, FS: Filesystem<S>>(
    fs: &mut FS,
    meta: &RequestMeta,
    ino: u64,
    body: &[u8],
    reply: ReplyHandler<S>,
    override_ttl: bool,
)
    ensures
        spec_setxattr_args(body@) is None ==> *final(fs) == *old(fs) && reply.replies(spec_error_field(ENOSYS), Seq::empty()),
        spec_setxattr_args(body@) is Some ==> ({ let (args, name, value) = spec_setxattr_args(body@)->0; exists|c: ReplyEmpty<Option<ReplyHandler<S>>>| #![trigger old(fs).set_xattr(final(fs), *meta, ino, args, name, value, c)] c.callback() == Some(reply) && old(fs).set_xattr(final(fs), *meta, ino, args, name, value, c) }),
{
    match setxattr_args(body) {
        Some((args, name, value)) => {
            assert(spec_setxattr_args(body@) == Some((args, name@, value@)));
            let c = ReplyEmpty::new(Some(reply));
            let ghost gc = c;
            let ghost before = *fs;
            fs.setxattr(meta, ino, args, name, value, c);
            proof {
                let c = gc;
                assert(c.callback() == Some(reply) && before.set_xattr(fs, *meta, ino, args, name@, value@, c));
            }
            assert(exists|c: ReplyEmpty<Option<ReplyHandler<S>>>| #![trigger before.set_xattr(fs, *meta, ino, args, name@, value@, c)] c.callback() == Some(reply) && before.set_xattr(fs, *meta, ino, args, name@, value@, c));
            proof {
                let (p0, p1, p2) = spec_setxattr_args(body@)->Some_0;
                assert(p0 == args);
                assert(p1 == name@);
                assert(p2 == value@);
            }
        },
        None => reply.error(enosys()),
    }
}

/// Serve a GetXAttr request.
fn serve_getxattr<S: ReplySender, FS: Filesystem<S>>(
    fs: &mut FS,
    meta: &RequestMeta,
    ino: u64,
    body: &[u8],
    reply: ReplyHandler<S>,
    override_ttl: bool,
)
    ensures
        spec_getxattr_args(body@) is None ==> *final(fs) == *old(fs) && reply.replies(spec_error_field(ENOSYS), Seq::empty()),
        spec_getxattr_args(body@) is Some ==> ({ let (args, name) = spec_getxattr_args(body@)->0; exists|c: ReplyXattr<Option<ReplyHandler<S>>>| #![trigger old(fs).got_xattr(final(fs), *meta, ino, args, name, c)] c.callback() == Some(reply) && old(fs).got_xattr(final(fs), *meta, ino, args, name, c) }),
{
    match getxattr_args(body) {
        Some((args, name)) => {
            assert(spec_getxattr_args(body@) == Some((args, name@)));
            let c = ReplyXattr::new(Some(reply));
            let ghost gc = c;
            let ghost before = *fs;
            fs.getxattr(meta, ino, args, name, c);
            proof {
                let c = gc;
                assert(c.callback() == Some(reply) && before.got_xattr(fs, *meta, ino, args, name@, c));
            }
            assert(exists|c: ReplyXattr<Option<ReplyHandler<S>>>| #![trigger before.got_xattr(fs, *meta, ino, args, name@, c)] c.callback() == Some(reply) && before.got_xattr(fs, *meta, ino, args, name@, c));
            proof {
                let (p0, p1) = spec_getxattr_args(body@)->Some_0;
                assert(p0 == args);
                assert(p1 == name@);
            }
        },
        None => reply.error(enosys()),
    }
}

/// Serve a ListXAttr request.
fn serve_listxattr<S: ReplySender, FS: Filesystem<S>>(
    fs: &mut FS,
    meta: &RequestMeta,
    ino: u64,
    body: &[u8],
    reply: ReplyHandler<S>,
    override_ttl: bool,
)
    ensures
        spec_listxattr_args(body@) is None ==> *final(fs) == *old(fs) && reply.replies(spec_error_field(ENOSYS), Seq::empty()),
        spec_listxattr_args(body@) matches Some(args) ==> (exists|c: ReplyXattr<Option<ReplyHandler<S>>>| #![trigger old(fs).listed_xattr(final(fs), *meta, ino, args, c)] c.callback() == Some(reply) && old(fs).listed_xattr(final(fs), *meta, ino, args, c)),
{
    match listxattr_args(body) {
        Some(args) => {
            assert(spec_listxattr_args(body@) == Some(args));
            let c = ReplyXattr::new(Some(reply));
            let ghost gc = c;
            let ghost before = *fs;
            fs.listxattr(meta, ino, args, c);
            proof {
                let c = gc;
                assert(c.callback() == Some(reply) && before.listed_xattr(fs, *meta, ino, args, c));
            }
            assert(exists|c: ReplyXattr<Option<ReplyHandler<S>>>| #![trigger before.listed_xattr(fs, *meta, ino, args, c)] c.callback() == Some(reply) && before.listed_xattr(fs, *meta, ino, args, c));
        },
        None => reply.error(enosys()),
    }
}

/// Serve a RemoveXAttr request.
fn serve_removexattr<S: ReplySender, FS: Filesystem<S>>(
    fs: &mut FS,
    meta: &RequestMeta,
    ino: u64,
    body: &[u8],
    reply: ReplyHandler<S>,
    override_ttl: bool,
)
    ensures
        spec_removexattr_args(body@) is None ==> *final(fs) == *old(fs) && reply.replies(spec_error_field(ENOSYS), Seq::empty()),
        spec_removexattr_args(body@) matches Some(name) ==> (exists|c: ReplyEmpty<Option<ReplyHandler<S>>>| #![trigger old(fs).removed_xattr(final(fs), *meta, ino, name, c)] c.callback() == Some(reply) && old(fs).removed_xattr(final(fs), *meta, ino, name, c)),
{
    match removexattr_args(body) {
        Some(name) => {
            assert(spec_removexattr_args(body@) == Some(name@));
            let c = ReplyEmpty::new(Some(reply));
            let ghost gc = c;
            let ghost before = *fs;
            fs.removexattr(meta, ino, name, c);
            proof {
                let c = gc;
                assert(c.callback() == Some(reply) && before.removed_xattr(fs, *meta, ino, name@, c));
            }
            assert(exists|c: ReplyEmpty<Option<ReplyHandler<S>>>| #![trigger before.removed_xattr(fs, *meta, ino, name@, c)] c.callback() == Some(reply) && before.removed_xattr(fs, *meta, ino, name@, c));
        },
        None => reply.error(enosys()),
    }
}

/// Serve a Flush request.
fn serve_flush<S: ReplySender, FS: Filesystem<S>>(
    fs: &mut FS,
    meta: &RequestMeta,
    ino: u64,
    body: &[u8],
    reply: ReplyHandler<S>,
    override_ttl: bool,
)
    ensures
        spec_flush_args(body@) is None ==> *final(fs) == *old(fs) && reply.replies(spec_error_field(ENOSYS), Seq::empty()),
        spec_flush_args(body@) matches Some(args) ==> (exists|c: ReplyEmpty<Option<ReplyHandler<S>>>| #![trigger old(fs).flushed(final(fs), *meta, ino, args, c)] c.callback() == Some(reply) && old(fs).flushed(final(fs), *meta, ino, args, c)),
{
    match flush_args(body) {
        Some(args) => {
            assert(spec_flush_args(body@) == Some(args));
            let c = ReplyEmpty::new(Some(reply));
            let ghost gc = c;
            let ghost before = *fs;
            fs.flush(meta, ino, args, c);
            proof {
                let c = gc;
                assert(c.callback() == Some(reply) && before.flushed(fs, *meta, ino, args, c));
            }
            assert(exists|c: ReplyEmpty<Option<ReplyHandler<S>>>| #![trigger before.flushed(fs, *meta, ino, args, c)] c.callback() == Some(reply) && before.flushed(fs, *meta, ino, args, c));
        },
        None => reply.error(enosys()),
    }
}

/// Serve a OpenDir request.
fn serve_opendir<S: ReplySender, FS: Filesystem<S>>(
    fs: &mut FS,
    meta: &RequestMeta,
    ino: u64,
    body: &[u8],
    reply: ReplyHandler<S>,
    override_ttl: bool,
)
    ensures
        spec_opendir_args(body@) is None ==> *final(fs) == *old(fs) && reply.replies(spec_error_field(ENOSYS), Seq::empty()),
        spec_opendir_args(body@) matches Some(args) ==> (exists|c: ReplyOpen<Option<ReplyHandler<S>>>| #![trigger old(fs).opened_dir(final(fs), *meta, ino, args, c)] c.callback() == Some(reply) && old(fs).opened_dir(final(fs), *meta, ino, args, c)),
{
    match opendir_args(body) {
        Some(args) => {
            assert(spec_opendir_args(body@) == Some(args));
            let c = ReplyOpen::new(Some(reply));
            let ghost gc = c;
            let ghost before = *fs;
            fs.opendir(meta, ino, args, c);
            proof {
                let c = gc;
                assert(c.callback() == Some(reply) && before.opened_dir(fs, *meta, ino, args, c));
            }
            assert(exists|c: ReplyOpen<Option<ReplyHandler<S>>>| #![trigger before.opened_dir(fs, *meta, ino, args, c)] c.callback() == Some(reply) && before.opened_dir(fs, *meta, ino, args, c));
        },
        None => reply.error(enosys()),
    }
}

/// Serve a ReadDir request.
fn serve_readdir<S: ReplySender, FS: Filesystem<S>>(
    fs: &mut FS,
    meta: &RequestMeta,
    ino: u64,
    body: &[u8],
    reply: ReplyHandler<S>,
    override_ttl: bool,
)
    ensures
        spec_readdir_args(body@) is None ==> *final(fs) == *old(fs) && reply.replies(spec_error_field(ENOSYS), Seq::empty()),
        spec_readdir_args(body@) matches Some(args) ==> (exists|c: ReplyDirectory<DirectoryHandler<S>>| #![trigger old(fs).read_dir(final(fs), *meta, ino, args, c)] c.callback().handler() == Some(reply) && c.callback().listing() == Some(Seq::<u8>::empty()) && c.callback().limit() == args.size as usize && old(fs).read_dir(final(fs), *meta, ino, args, c)),
{
    match readdir_args(body) {
        Some(args) => {
            assert(spec_readdir_args(body@) == Some(args));
            let handler = DirectoryHandler::new(args.size as usize, reply);
            let c = ReplyDirectory::new(handler);
            let ghost gc = c;
            let ghost before = *fs;
            fs.readdir(meta, ino, args, c);
            proof {
                let c = gc;
                assert(c.callback().handler() == Some(reply) && c.callback().listing() == Some(Seq::<u8>::empty()) && c.callback().limit() == args.size as usize && before.read_dir(fs, *meta, ino, args, c));
            }
            assert(exists|c: ReplyDirectory<DirectoryHandler<S>>| #![trigger before.read_dir(fs, *meta, ino, args, c)] c.callback().handler() == Some(reply) && c.callback().listing() == Some(Seq::<u8>::empty()) && c.callback().limit() == args.size as usize && before.read_dir(fs, *meta, ino, args, c));
        },
        None => reply.error(enosys()),
    }
}

/// Serve a ReleaseDir request.
fn serve_releasedir<S: ReplySender, FS: Filesystem<S>>(
    fs: &mut FS,
    meta: &RequestMeta,
    ino: u64,
    body: &[u8],
    reply: ReplyHandler<S>,
    override_ttl: bool,
)
    ensures
        spec_releasedir_args(body@) is None ==> *final(fs) == *old(fs) && reply.replies(spec_error_field(ENOSYS), Seq::empty()),
        spec_releasedir_args(body@) matches Some(args) ==> (exists|c: ReplyEmpty<Option<ReplyHandler<S>>>| #![trigger old(fs).released_dir(final(fs), *meta, ino, args, c)] c.callback() == Some(reply) && old(fs).released_dir(final(fs), *meta, ino, args, c)),
{
    match releasedir_args(body) {
        Some(args) => {
            assert(spec_releasedir_args(body@) == Some(args));
            let c = ReplyEmpty::new(Some(reply));
            let ghost gc = c;
            let ghost before = *fs;
            fs.releasedir(meta, ino, args, c);
            proof {
                let c = gc;
                assert(c.callback() == Some(reply) && before.released_dir(fs, *meta, ino, args, c));
            }
            assert(exists|c: ReplyEmpty<Option<ReplyHandler<S>>>| #![trigger before.released_dir(fs, *meta, ino, args, c)] c.callback() == Some(reply) && before.released_dir(fs, *meta, ino, args, c));
        },
        None => reply.error(enosys()),
    }
}

/// Serve a FSyncDir request.
fn serve_fsyncdir<S: ReplySender, FS: Filesystem<S>>(
    fs: &mut FS,
    meta: &RequestMeta,
    ino: u64,
    body: &[u8],
    reply: ReplyHandler<S>,
    override_ttl: bool,
)
    ensures
        spec_fsyncdir_args(body@) is None ==> *final(fs) == *old(fs) && reply.replies(spec_error_field(ENOSYS), Seq::empty()),
        spec_fsyncdir_args(body@) matches Some(args) ==> (exists|c: ReplyEmpty<Option<ReplyHandler<S>>>| #![trigger old(fs).synced_dir(final(fs), *meta, ino, args, c)] c.callback() == Some(reply) && old(fs).synced_dir(final(fs), *meta, ino, args, c)),
{
    match fsyncdir_args(body) {
        Some(args) => {
            assert(spec_fsyncdir_args(body@) == Some(args));
            let c = ReplyEmpty::new(Some(reply));
            let ghost gc = c;
            let ghost before = *fs;
            fs.fsyncdir(meta, ino, args, c);
            proof {
                let c = gc;
                assert(c.callback() == Some(reply) && before.synced_dir(fs, *meta, ino, args, c));
            }
            assert(exists|c: ReplyEmpty<Option<ReplyHandler<S>>>| #![trigger before.synced_dir(fs, *meta, ino, args, c)] c.callback() == Some(reply) && before.synced_dir(fs, *meta, ino, args, c));
        },
        None => reply.error(enosys()),
    }
}

/// Serve a GetLk request.
fn serve_getlk<S: ReplySender, FS: Filesystem<S>>(
    fs: &mut FS,
    meta: &RequestMeta,
    ino: u64,
    body: &[u8],
    reply: ReplyHandler<S>,
    override_ttl: bool,
)
    ensures
        spec_getlk_args(body@) is None ==> *final(fs) == *old(fs) && reply.replies(spec_error_field(ENOSYS), Seq::empty()),
        spec_getlk_args(body@) matches Some(args) ==> (exists|c: ReplyLock<Option<ReplyHandler<S>>>| #![trigger old(fs).got_lock(final(fs), *meta, ino, args, c)] c.callback() == Some(reply) && old(fs).got_lock(final(fs), *meta, ino, args, c)),
{
    match getlk_args(body) {
        Some(args) => {
            assert(spec_getlk_args(body@) == Some(args));
            let c = ReplyLock::new(Some(reply));
            let ghost gc = c;
            let ghost before = *fs;
            fs.getlk(meta, ino, args, c);
            proof {
                let c = gc;
                assert(c.callback() == Some(reply) && before.got_lock(fs, *meta, ino, args, c));
            }
            assert(exists|c: ReplyLock<Option<ReplyHandler<S>>>| #![trigger before.got_lock(fs, *meta, ino, args, c)] c.callback() == Some(reply) && before.got_lock(fs, *meta, ino, args, c));
        },
        None => reply.error(enosys()),
    }
}

/// Serve a SetLk request.
fn serve_setlk<S: ReplySender, FS: Filesystem<S>>(
    fs: &mut FS,
    meta: &RequestMeta,
    ino: u64,
    body: &[u8],
    reply: ReplyHandler<S>,
    override_ttl: bool,
)
    ensures
        spec_setlk_args(body@) is None ==> *final(fs) == *old(fs) && reply.replies(spec_error_field(ENOSYS), Seq::empty()),
        spec_setlk_args(body@) matches Some(args) ==> (exists|c: ReplyEmpty<Option<ReplyHandler<S>>>| #![trigger old(fs).set_lock(final(fs), *meta, ino, args, false, c)] c.callback() == Some(reply) && old(fs).set_lock(final(fs), *meta, ino, args, false, c)),
{
    match setlk_args(body) {
        Some(args) => {
            assert(spec_setlk_args(body@) == Some(args));
            let c = ReplyEmpty::new(Some(reply));
            let ghost gc = c;
            let ghost before = *fs;
            fs.setlk(meta, ino, args, false, c);
            proof {
                let c = gc;
                assert(c.callback() == Some(reply) && before.set_lock(fs, *meta, ino, args, false, c));
            }
            assert(exists|c: ReplyEmpty<Option<ReplyHandler<S>>>| #![trigger before.set_lock(fs, *meta, ino, args, false, c)] c.callback() == Some(reply) && before.set_lock(fs, *meta, ino, args, false, c));
        },
        None => reply.error(enosys()),
    }
}

/// Serve a SetLkW request.
fn serve_setlkw<S: ReplySender, FS: Filesystem<S>>(
    fs: &mut FS,
    meta: &RequestMeta,
    ino: u64,
    body: &[u8],
    reply: ReplyHandler<S>,
    override_ttl: bool,
)
    ensures
        spec_setlkw_args(body@) is None ==> *final(fs) == *old(fs) && reply.replies(spec_error_field(ENOSYS), Seq::empty()),
        spec_setlkw_args(body@) matches Some(args) ==> (exists|c: ReplyEmpty<Option<ReplyHandler<S>>>| #![trigger old(fs).set_lock(final(fs), *meta, ino, args, true, c)] c.callback() == Some(reply) && old(fs).set_lock(final(fs), *meta, ino, args, true, c)),
{
    match setlkw_args(body) {
        Some(args) => {
            assert(spec_setlkw_args(body@) == Some(args));
            let c = ReplyEmpty::new(Some(reply));
            let ghost gc = c;
            let ghost before = *fs;
            fs.setlk(meta, ino, args, true, c);
            proof {
                let c = gc;
                assert(c.callback() == Some(reply) && before.set_lock(fs, *meta, ino, args, true, c));
            }
            assert(exists|c: ReplyEmpty<Option<ReplyHandler<S>>>| #![trigger before.set_lock(fs, *meta, ino, args, true, c)] c.callback() == Some(reply) && before.set_lock(fs, *meta, ino, args, true, c));
        },
        None => reply.error(enosys()),
    }
}

/// Serve a Access request.
fn serve_access<S: ReplySender, FS: Filesystem<S>>(
    fs: &mut FS,
    meta: &RequestMeta,
    ino: u64,
    body: &[u8],
    reply: ReplyHandler<S>,
    override_ttl: bool,
)
    ensures
        spec_access_args(body@) is None ==> *final(fs) == *old(fs) && reply.replies(spec_error_field(ENOSYS), Seq::empty()),
        spec_access_args(body@) matches Some(args) ==> (exists|c: ReplyEmpty<Option<ReplyHandler<S>>>| #![trigger old(fs).accessed(final(fs), *meta, ino, args, c)] c.callback() == Some(reply) && old(fs).accessed(final(fs), *meta, ino, args, c)),
{
    match access_args(body) {
        Some(args) => {
            assert(spec_access_args(body@) == Some(args));
            let c = ReplyEmpty::new(Some(reply));
            let ghost gc = c;
            let ghost before = *fs;
            fs.access(meta, ino, args, c);
            proof {
                let c = gc;
                assert(c.callback() == Some(reply) && before.accessed(fs, *meta, ino, args, c));
            }
            assert(exists|c: ReplyEmpty<Option<ReplyHandler<S>>>| #![trigger before.accessed(fs, *meta, ino, args, c)] c.callback() == Some(reply) && before.accessed(fs, *meta, ino, args, c));
        },
        None => reply.error(enosys()),
    }
}

/// Serve a Create request.
fn serve_create<S: ReplySender, FS: Filesystem<S>>(
    fs: &mut FS,
    meta: &RequestMeta,
    ino: u64,
    body: &[u8],
    reply: ReplyHandler<S>,
    override_ttl: bool,
)
    ensures
        spec_create_args(body@) is None ==> *final(fs) == *old(fs) && reply.replies(spec_error_field(ENOSYS), Seq::empty()),
        spec_create_args(body@) is Some ==> ({ let (args, name) = spec_create_args(body@)->0; exists|c: ReplyCreate<Option<ReplyHandler<S>>>| #![trigger old(fs).created(final(fs), *meta, ino, args, name, c)] c.callback() == Some(reply) && old(fs).created(final(fs), *meta, ino, args, name, c) }),
{
    match create_args(body) {
        Some((args, name)) => {
            assert(spec_create_args(body@) == Some((args, name@)));
            let c = ReplyCreate::new(Some(reply));
            let ghost gc = c;
            let ghost before = *fs;
            fs.create(meta, ino, args, name, c);
            proof {
                let c = gc;
                assert(c.callback() == Some(reply) && before.created(fs, *meta, ino, args, name@, c));
            }
            assert(exists|c: ReplyCreate<Option<ReplyHandler<S>>>| #![trigger before.created(fs, *meta, ino, args, name@, c)] c.callback() == Some(reply) && before.created(fs, *meta, ino, args, name@, c));
            proof {
                let (p0, p1) = spec_create_args(body@)->Some_0;
                assert(p0 == args);
                assert(p1 == name@);
            }
        },
        None => reply.error(enosys()),
    }
}

/// Serve a BMap request.
fn serve_bmap<S: ReplySender, FS: Filesystem<S>>(
    fs: &mut FS,
    meta: &RequestMeta,
    ino: u64,
    body: &[u8],
    reply: ReplyHandler<S>,
    override_ttl: bool,
)
    ensures
        spec_bmap_args(body@) is None ==> *final(fs) == *old(fs) && reply.replies(spec_error_field(ENOSYS), Seq::empty()),
        spec_bmap_args(body@) matches Some(args) ==> (exists|c: ReplyBmap<Option<ReplyHandler<S>>>| #![trigger old(fs).mapped(final(fs), *meta, ino, args, c)] c.callback() == Some(reply) && old(fs).mapped(final(fs), *meta, ino, args, c)),
{
    match bmap_args(body) {
        Some(args) => {
            assert(spec_bmap_args(body@) == Some(args));
            let c = ReplyBmap::new(Some(reply));
            let ghost gc = c;
            let ghost before = *fs;
            fs.bmap(meta, ino, args, c);
            proof {
                let c = gc;
                assert(c.callback() == Some(reply) && before.mapped(fs, *meta, ino, args, c));
            }
            assert(exists|c: ReplyBmap<Option<ReplyHandler<S>>>| #![trigger before.mapped(fs, *meta, ino, args, c)] c.callback() == Some(reply) && before.mapped(fs, *meta, ino, args, c));
        },
        None => reply.error(enosys()),
    }
}

/// Serve a IoCtl request.
fn serve_ioctl<S: ReplySender, FS: Filesystem<S>>(
    fs: &mut FS,
    meta: &RequestMeta,
    ino: u64,
    body: &[u8],
    reply: ReplyHandler<S>,
    override_ttl: bool,
)
    ensures
        spec_ioctl_args(body@) is None ==> *final(fs) == *old(fs) && reply.replies(spec_error_field(ENOSYS), Seq::empty()),
        spec_ioctl_args(body@) is Some ==> ({ let (args, data) = spec_ioctl_args(body@)->0; exists|c: ReplyIoctl<Option<ReplyHandler<S>>>| #![trigger old(fs).controlled(final(fs), *meta, ino, args, data, c)] c.callback() == Some(reply) && old(fs).controlled(final(fs), *meta, ino, args, data, c) }),
{
    match ioctl_args(body) {
        Some((args, data)) => {
            assert(spec_ioctl_args(body@) == Some((args, data@)));
            let c = ReplyIoctl::new(Some(reply));
            let ghost gc = c;
            let ghost before = *fs;
            fs.ioctl(meta, ino, args, data, c);
            proof {
                let c = gc;
                assert(c.callback() == Some(reply) && before.controlled(fs, *meta, ino, args, data@, c));
            }
            assert(exists|c: ReplyIoctl<Option<ReplyHandler<S>>>| #![trigger before.controlled(fs, *meta, ino, args, data@, c)] c.callback() == Some(reply) && before.controlled(fs, *meta, ino, args, data@, c));
            proof {
                let (p0, p1) = spec_ioctl_args(body@)->Some_0;
                assert(p0 == args);
                assert(p1 == data@);
            }
        },
        None => reply.error(enosys()),
    }
}

/// Serve a Poll request.
fn serve_poll<S: ReplySender, FS: Filesystem<S>>(
    fs: &mut FS,
    meta: &RequestMeta,
    ino: u64,
    body: &[u8],
    reply: ReplyHandler<S>,
    override_ttl: bool,
)
    ensures
        spec_poll_args(body@) is None ==> *final(fs) == *old(fs) && reply.replies(spec_error_field(ENOSYS), Seq::empty()),
        spec_poll_args(body@) matches Some(args) ==> (exists|c: ReplyPoll<Option<ReplyHandler<S>>>| #![trigger old(fs).polled(final(fs), *meta, ino, args, c)] c.callback() == Some(reply) && old(fs).polled(final(fs), *meta, ino, args, c)),
{
    match poll_args(body) {
        Some(args) => {
            assert(spec_poll_args(body@) == Some(args));
            let c = ReplyPoll::new(Some(reply));
            let ghost gc = c;
            let ghost before = *fs;
            fs.poll(meta, ino, args, c);
            proof {
                let c = gc;
                assert(c.callback() == Some(reply) && before.polled(fs, *meta, ino, args, c));
            }
            assert(exists|c: ReplyPoll<Option<ReplyHandler<S>>>| #![trigger before.polled(fs, *meta, ino, args, c)] c.callback() == Some(reply) && before.polled(fs, *meta, ino, args, c));
        },
        None => reply.error(enosys()),
    }
}

/// Serve a FAllocate request.
fn serve_fallocate<S: ReplySender, FS: Filesystem<S>>(
    fs: &mut FS,
    meta: &RequestMeta,
    ino: u64,
    body: &[u8],
    reply: ReplyHandler<S>,
    override_ttl: bool,
)
    ensures
        spec_fallocate_args(body@) is None ==> *final(fs) == *old(fs) && reply.replies(spec_error_field(ENOSYS), Seq::empty()),
        spec_fallocate_args(body@) matches Some(args) ==> (exists|c: ReplyEmpty<Option<ReplyHandler<S>>>| #![trigger old(fs).allocated(final(fs), *meta, ino, args, c)] c.callback() == Some(reply) && old(fs).allocated(final(fs), *meta, ino, args, c)),
{
    match fallocate_args(body) {
        Some(args) => {
            assert(spec_fallocate_args(body@) == Some(args));
            let c = ReplyEmpty::new(Some(reply));
            let ghost gc = c;
            let ghost before = *fs;
            fs.fallocate(meta, ino, args, c);
            proof {
                let c = gc;
                assert(c.callback() == Some(reply) && before.allocated(fs, *meta, ino, args, c));
            }
            assert(exists|c: ReplyEmpty<Option<ReplyHandler<S>>>| #![trigger before.allocated(fs, *meta, ino, args, c)] c.callback() == Some(reply) && before.allocated(fs, *meta, ino, args, c));
        },
        None => reply.error(enosys()),
    }
}

/// Serve a ReadDirPlus request.
fn serve_readdirplus<S: ReplySender, FS: Filesystem<S>>(
    fs: &mut FS,
    meta: &RequestMeta,
    ino: u64,
    body: &[u8],
    reply: ReplyHandler<S>,
    override_ttl: bool,
)
    ensures
        spec_readdirplus_args(body@) is None ==> *final(fs) == *old(fs) && reply.replies(spec_error_field(ENOSYS), Seq::empty()),
        spec_readdirplus_args(body@) matches Some(args) ==> (exists|c: ReplyDirectoryPlus<DirectoryPlusHandler<S>>| #![trigger old(fs).read_dir_plus(final(fs), *meta, ino, args, c)] c.callback().handler() == Some(reply) && c.callback().listing() == Some(Seq::<u8>::empty()) && c.callback().limit() == args.size as usize && c.callback().overrides_attr_ttl() == override_ttl && old(fs).read_dir_plus(final(fs), *meta, ino, args, c)),
{
    match readdirplus_args(body) {
        Some(args) => {
            assert(spec_readdirplus_args(body@) == Some(args));
            let mut handler = DirectoryPlusHandler::new(args.size as usize, reply);
            if override_ttl {
                handler.attr_ttl_override();
            }
            let c = ReplyDirectoryPlus::new(handler);
            let ghost gc = c;
            let ghost before = *fs;
            fs.readdirplus(meta, ino, args, c);
            proof {
                let c = gc;
                assert(c.callback().handler() == Some(reply) && c.callback().listing() == Some(Seq::<u8>::empty()) && c.callback().limit() == args.size as usize && c.callback().overrides_attr_ttl() == override_ttl && before.read_dir_plus(fs, *meta, ino, args, c));
            }
            assert(exists|c: ReplyDirectoryPlus<DirectoryPlusHandler<S>>| #![trigger before.read_dir_plus(fs, *meta, ino, args, c)] c.callback().handler() == Some(reply) && c.callback().listing() == Some(Seq::<u8>::empty()) && c.callback().limit() == args.size as usize && c.callback().overrides_attr_ttl() == override_ttl && before.read_dir_plus(fs, *meta, ino, args, c));
        },
        None => reply.error(enosys()),
    }
}

/// Serve a Lseek request.
fn serve_lseek<S: ReplySender, FS: Filesystem<S>>(
    fs: &mut FS,
    meta: &RequestMeta,
    ino: u64,
    body: &[u8],
    reply: ReplyHandler<S>,
    override_ttl: bool,
)
    ensures
        spec_lseek_args(body@) is None ==> *final(fs) == *old(fs) && reply.replies(spec_error_field(ENOSYS), Seq::empty()),
        spec_lseek_args(body@) matches Some(args) ==> (exists|c: ReplyLseek<Option<ReplyHandler<S>>>| #![trigger old(fs).sought(final(fs), *meta, ino, args, c)] c.callback() == Some(reply) && old(fs).sought(final(fs), *meta, ino, args, c)),
{
    match lseek_args(body) {
        Some(args) => {
            assert(spec_lseek_args(body@) == Some(args));
            let c = ReplyLseek::new(Some(reply));
            let ghost gc = c;
            let ghost before = *fs;
            fs.lseek(meta, ino, args, c);
            proof {
                let c = gc;
                assert(c.callback() == Some(reply) && before.sought(fs, *meta, ino, args, c));
            }
            assert(exists|c: ReplyLseek<Option<ReplyHandler<S>>>| #![trigger before.sought(fs, *meta, ino, args, c)] c.callback() == Some(reply) && before.sought(fs, *meta, ino, args, c));
        },
        None => reply.error(enosys()),
    }
}

/// Serve a CopyFileRange request.
fn serve_copyfilerange<S: ReplySender, FS: Filesystem<S>>(
    fs: &mut FS,
    meta: &RequestMeta,
    ino: u64,
    body: &[u8],
    reply: ReplyHandler<S>,
    override_ttl: bool,
)
    ensures
        spec_copy_file_range_args(body@) is None ==> *final(fs) == *old(fs) && reply.replies(spec_error_field(ENOSYS), Seq::empty()),
        spec_copy_file_range_args(body@) matches Some(args) ==> (exists|c: ReplyWrite<Option<ReplyHandler<S>>>| #![trigger old(fs).copied(final(fs), *meta, ino, args, c)] c.callback() == Some(reply) && old(fs).copied(final(fs), *meta, ino, args, c)),
{
    match copy_file_range_args(body) {
        Some(args) => {
            assert(spec_copy_file_range_args(body@) == Some(args));
            let c = ReplyWrite::new(Some(reply));
            let ghost gc = c;
            let ghost before = *fs;
            fs.copy_file_range(meta, ino, args, c);
            proof {
                let c = gc;
                assert(c.callback() == Some(reply) && before.copied(fs, *meta, ino, args, c));
            }
            assert(exists|c: ReplyWrite<Option<ReplyHandler<S>>>| #![trigger before.copied(fs, *meta, ino, args, c)] c.callback() == Some(reply) && before.copied(fs, *meta, ino, args, c));
        },
        None => reply.error(enosys()),
    }
}

/// Serve a SetVolName request.
fn serve_setvolname<S: ReplySender, FS: Filesystem<S>>(
    fs: &mut FS,
    meta: &RequestMeta,
    ino: u64,
    body: &[u8],
    reply: ReplyHandler<S>,
    override_ttl: bool,
)
    ensures
        spec_setvolname_args(body@) is None ==> *final(fs) == *old(fs) && reply.replies(spec_error_field(ENOSYS), Seq::empty()),
        spec_setvolname_args(body@) matches Some(name) ==> (exists|c: ReplyEmpty<Option<ReplyHandler<S>>>| #![trigger old(fs).set_vol_name(final(fs), *meta, name, c)] c.callback() == Some(reply) && old(fs).set_vol_name(final(fs), *meta, name, c)),
{
    match setvolname_args(body) {
        Some(name) => {
            assert(spec_setvolname_args(body@) == Some(name@));
            let c = ReplyEmpty::new(Some(reply));
            let ghost gc = c;
            let ghost before = *fs;
            fs.setvolname(meta, name, c);
            proof {
                let c = gc;
                assert(c.callback() == Some(reply) && before.set_vol_name(fs, *meta, name@, c));
            }
            assert(exists|c: ReplyEmpty<Option<ReplyHandler<S>>>| #![trigger before.set_vol_name(fs, *meta, name@, c)] c.callback() == Some(reply) && before.set_vol_name(fs, *meta, name@, c));
        },
        None => reply.error(enosys()),
    }
}

/// Serve a GetXTimes request.
fn serve_getxtimes<S: ReplySender, FS: Filesystem<S>>(
    fs: &mut FS,
    meta: &RequestMeta,
    ino: u64,
    body: &[u8],
    reply: ReplyHandler<S>,
    override_ttl: bool,
)
    ensures
        exists|c: ReplyXTimes<Option<ReplyHandler<S>>>| #![trigger old(fs).got_xtimes(final(fs), *meta, ino, c)] c.callback() == Some(reply) && old(fs).got_xtimes(final(fs), *meta, ino, c),
{
    {
        let c = ReplyXTimes::new(Some(reply));
        let ghost gc = c;
        let ghost before = *fs;
        fs.getxtimes(meta, ino, c);
        proof {
            let c = gc;
            assert(c.callback() == Some(reply) && before.got_xtimes(fs, *meta, ino, c));
        }
        assert(exists|c: ReplyXTimes<Option<ReplyHandler<S>>>| #![trigger before.got_xtimes(fs, *meta, ino, c)] c.callback() == Some(reply) && before.got_xtimes(fs, *meta, ino, c));
    }
}

/// Serve a Exchange request.
fn serve_exchange<S: ReplySender, FS: Filesystem<S>>(
    fs: &mut FS,
    meta: &RequestMeta,
    ino: u64,
    body: &[u8],
    reply: ReplyHandler<S>,
    override_ttl: bool,
)
    ensures
        spec_exchange_args(body@) is None ==> *final(fs) == *old(fs) && reply.replies(spec_error_field(ENOSYS), Seq::empty()),
        spec_exchange_args(body@) is Some ==> ({ let (args, name, newname) = spec_exchange_args(body@)->0; exists|c: ReplyEmpty<Option<ReplyHandler<S>>>| #![trigger old(fs).exchanged(final(fs), *meta, args, name, newname, c)] c.callback() == Some(reply) && old(fs).exchanged(final(fs), *meta, args, name, newname, c) }),
{
    match exchange_args(body) {
        Some((args, name, newname)) => {
            assert(spec_exchange_args(body@) == Some((args, name@, newname@)));
            let c = ReplyEmpty::new(Some(reply));
            let ghost gc = c;
            let ghost before = *fs;
            fs.exchange(meta, args, name, newname, c);
            proof {
                let c = gc;
                assert(c.callback() == Some(reply) && before.exchanged(fs, *meta, args, name@, newname@, c));
            }
            assert(exists|c: ReplyEmpty<Option<ReplyHandler<S>>>| #![trigger before.exchanged(fs, *meta, args, name@, newname@, c)] c.callback() == Some(reply) && before.exchanged(fs, *meta, args, name@, newname@, c));
            proof {
                let (p0, p1, p2) = spec_exchange_args(body@)->Some_0;
                assert(p0 == args);
                assert(p1 == name@);
                assert(p2 == newname@);
            }
        },
        None => reply.error(enosys()),
    }
}

/// Serve one request. A request whose arguments cannot be read is answered `ENOSYS`
/// before anything else. Otherwise it is routed: a refused request is answered with
/// the refusal's error; an init runs the handshake (the filesystem may adjust or
/// refuse the configuration the kernel proposes); a destroy tears the filesystem down;
/// every other request is handed to the filesystem method of its operation with its
/// decoded arguments and a reply container holding `reply` (for the directory
/// listings, one limited to the size the kernel asked for), and an operation no method
/// serves is answered `ENOSYS`. Forget requests take no reply. Returns whether the
/// filesystem accepted an init handshake.
pub fn dispatch<S: ReplySender, FS: Filesystem<S>>(
    fs: &mut FS,
    state: &mut SessionState,
    acl: SessionACL,
    session_owner: u32,
    meta: RequestMeta,
    ino: u64,
    kind: Option<OperationKind>,
    body: &[u8],
    reply: ReplyHandler<S>,
) -> (accepted: bool)
    ensures
        !spec_request_readable(kind, body@) ==> !accepted && *final(state) == *old(state) && *final(fs) == *old(fs)
            && reply.replies(spec_error_field(ENOSYS), Seq::empty()),
        spec_request_readable(kind, body@) ==> *final(state) == old(state).spec_after(spec_route_request(*old(state), acl, session_owner, meta.uid, kind), accepted),
        accepted ==> spec_request_readable(kind, body@) && spec_route_request(*old(state), acl, session_owner, meta.uid, kind) is Initialize,
        spec_request_readable(kind, body@) ==> (spec_route_request(*old(state), acl, session_owner, meta.uid, kind) matches Route::Refuse(refusal) ==> *final(fs) == *old(fs)
            && reply.replies(spec_error_field(refusal.spec_errno()), Seq::empty())),
        spec_request_readable(kind, body@) && spec_route_request(*old(state), acl, session_owner, meta.uid, kind) is Initialize ==> ({
            let args = spec_init_in(body@)->Some_0;
            exists|config_after: KernelConfigView, r: Result<(), i32>|
                #![trigger old(fs).inited(final(fs), meta, spec_new_config(args.capabilities, args.max_readahead), config_after, r)]
                old(fs).inited(final(fs), meta, spec_new_config(args.capabilities, args.max_readahead), config_after, r)
                && (accepted <==> r is Ok)
                && (r is Ok ==> reply.replies_config(args.capabilities, config_after))
                && (r matches Err(e) ==> reply.replies(spec_error_field(spec_errno(e)), Seq::empty()))
        }),
        spec_request_readable(kind, body@) && spec_route_request(*old(state), acl, session_owner, meta.uid, kind) is Destroy ==> old(fs).destroyed(final(fs)) && reply.replies(0, Seq::empty()),
        spec_request_readable(kind, body@) && spec_route_request(*old(state), acl, session_owner, meta.uid, kind) is CallWithoutReply && kind == Some(OperationKind::Forget)
            ==> old(fs).forgot(final(fs), meta, ino, spec_forget_args(body@)->Some_0),
        spec_request_readable(kind, body@) && spec_route_request(*old(state), acl, session_owner, meta.uid, kind) is CallWithoutReply && kind == Some(OperationKind::BatchForget)
            ==> spec_forgot_each::<S, FS>(*old(fs), *final(fs), meta, spec_batch_nodes(body@)),
        spec_request_readable(kind, body@) && spec_route_request(*old(state), acl, session_owner, meta.uid, kind) is Call ==> (!spec_reaches_filesystem(kind->Some_0, body@) ==> *final(fs) == *old(fs)
            && reply.replies(spec_error_field(ENOSYS), Seq::empty())),
        ({ let route = spec_route_request(*old(state), acl, session_owner, meta.uid, kind); spec_request_readable(kind, body@) && route is Call ==> exists|h: ReplyHandler<S>| #![trigger spec_prepared(reply, h, route->attr_ttl_override)] spec_prepared(reply, h, route->attr_ttl_override) && spec_served(*old(fs), *final(fs), meta, ino, kind->Some_0, body@, h, route->attr_ttl_override) }),
{
    let readable = match &kind {
        Some(k) => args_readable(k, body),
        None => true,
    };
    if !readable {
        reply.error(enosys());
        return false;
    }
    let route = route_request(state, acl, session_owner, meta.uid, &kind);
    let mut reply = reply;
    let ghost original = reply;
    let accepted = match route {
        Route::Refuse(refusal) => {
            reply.error(refusal.errno());
            false
        },
        Route::Initialize { .. } => match parse_init_in(body) {
            None => {
                reply.error(enosys());
                false
            },
            Some(args) => {
                let mut config = KernelConfig::new(args.capabilities, args.max_readahead);
                let ghost before = *fs;
                let ghost config_before = config@;
                let r = fs.init(&meta, &mut config);
                let ghost config_after = config@;
                assert(before.inited(fs, meta, config_before, config_after, r));
                match r {
                    Ok(()) => {
                        reply.config(args.capabilities, config);
                        true
                    },
                    Err(e) => {
                        reply.error(e);
                        false
                    },
                }
            },
        },
        Route::Destroy => {
            fs.destroy();
            reply.ok();
            false
        },
        Route::CallWithoutReply => {
            match kind {
                Some(OperationKind::Forget) => match forget_args(body) {
                    Some(nlookup) => fs.forget(&meta, ino, nlookup),
                    None => {},
                },
                Some(OperationKind::BatchForget) => match batch_forget_nodes(body) {
                    Some(nodes) => fs.batch_forget(&meta, nodes.as_slice()),
                    None => {},
                },
                _ => {},
            }
            reply.disable();
            false
        },
        Route::Call { attr_ttl_override } => {
            if attr_ttl_override {
                reply.attr_ttl_override();
            }
            assert(spec_prepared(original, reply, attr_ttl_override));
            match kind {
                Some(k) => call(fs, &meta, ino, k, body, reply, attr_ttl_override),
                None => reply.error(enosys()),
            }
            false
        },
    };
    state.apply(&route, accepted);
    accepted
}

} // verus!
