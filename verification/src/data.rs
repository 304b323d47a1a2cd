//! File attributes and the configuration of the kernel connection.

use vstd::prelude::*;
use std::time::Duration;

use crate::abi::{
    FuseAttr, FuseInitOut, FUSE_ASYNC_READ, FUSE_BIG_WRITES, FUSE_INIT_EXT, FUSE_KERNEL_MINOR_VERSION,
    FUSE_KERNEL_VERSION, FUSE_MAX_PAGES,
};
use crate::time::{duration_from_nanos, duration_nanos, spec_duration_nanos, Timestamp};
use crate::abi::{le_u16, le_u32};
use crate::request::{law_read_u32_at, law_read_u32_reads_prefix, spec_read_u32};

verus! {

/// The max size of write requests from the kernel. The absolute minimum is 4k,
/// FUSE recommends at least 128k, max 16M.
pub const MAX_WRITE_SIZE: u32 = 16777216;

/// Size of the buffer for reading a request from the kernel: a maximal write plus
/// room for its header.
pub const BUFFER_SIZE: usize = 16781312;

/// The largest stacking depth the kernel supports.
pub const FILESYSTEM_MAX_STACK_DEPTH: u32 = 2;

/// Flags requested from the kernel by default: asynchronous reads and big writes.
pub const INIT_FLAGS: u64 = 0x21;

/// File types
#[derive(Clone, Copy, Debug, PartialEq, Eq, Hash, Structural)]
pub enum FileType {
    /// Named pipe (S_IFIFO)
    NamedPipe,
    /// Character device (S_IFCHR)
    CharDevice,
    /// Block device (S_IFBLK)
    BlockDevice,
    /// Directory (S_IFDIR)
    Directory,
    /// Regular file (S_IFREG)
    RegularFile,
    /// Symbolic link (S_IFLNK)
    Symlink,
    /// Unix domain socket (S_IFSOCK)
    Socket,
}

/// File attributes
#[derive(Clone, Copy, Debug)]
pub struct FileAttr {
    /// Inode number
    pub ino: u64,
    /// Size in bytes
    pub size: u64,
    /// Size in blocks
    pub blocks: u64,
    /// Time of last access
    pub atime: Timestamp,
    /// Time of last modification
    pub mtime: Timestamp,
    /// Time of last change
    pub ctime: Timestamp,
    /// Time of creation (macOS only)
    pub crtime: Timestamp,
    /// Kind of file (directory, file, pipe, etc)
    pub kind: FileType,
    /// Permissions
    pub perm: u16,
    /// Number of hard links
    pub nlink: u32,
    /// User id
    pub uid: u32,
    /// Group id
    pub gid: u32,
    /// Rdev
    pub rdev: u32,
    /// Block size
    pub blksize: u32,
    /// Flags (macOS only, see chflags(2))
    pub flags: u32,
}

/// The constant `libc::S_IFIFO`: the file type bits of a named pipe, which libc defines
/// as 0o10000 on Linux; the value stated here holds for Linux
/// targets only (elsewhere libc's type is not `u32`).
#[verifier::external_body]
fn s_ififo() -> (r: u32)
    ensures
        r == 0o10000,
{
    libc::S_IFIFO
}

/// The constant `libc::S_IFCHR`: the file type bits of a character device, which libc defines
/// as 0o20000 on Linux; the value stated here holds for Linux
/// targets only (elsewhere libc's type is not `u32`).
#[verifier::external_body]
fn s_ifchr() -> (r: u32)
    ensures
        r == 0o20000,
{
    libc::S_IFCHR
}

/// The constant `libc::S_IFBLK`: the file type bits of a block device, which libc defines
/// as 0o60000 on Linux; the value stated here holds for Linux
/// targets only (elsewhere libc's type is not `u32`).
#[verifier::external_body]
fn s_ifblk() -> (r: u32)
    ensures
        r == 0o60000,
{
    libc::S_IFBLK
}

/// The constant `libc::S_IFDIR`: the file type bits of a directory, which libc defines
/// as 0o40000 on Linux; the value stated here holds for Linux
/// targets only (elsewhere libc's type is not `u32`).
#[verifier::external_body]
fn s_ifdir() -> (r: u32)
    ensures
        r == 0o40000,
{
    libc::S_IFDIR
}

/// The constant `libc::S_IFREG`: the file type bits of a regular file, which libc defines
/// as 0o100000 on Linux; the value stated here holds for Linux
/// targets only (elsewhere libc's type is not `u32`).
#[verifier::external_body]
fn s_ifreg() -> (r: u32)
    ensures
        r == 0o100000,
{
    libc::S_IFREG
}

/// The constant `libc::S_IFLNK`: the file type bits of a symbolic link, which libc defines
/// as 0o120000 on Linux; the value stated here holds for Linux
/// targets only (elsewhere libc's type is not `u32`).
#[verifier::external_body]
fn s_iflnk() -> (r: u32)
    ensures
        r == 0o120000,
{
    libc::S_IFLNK
}

/// The constant `libc::S_IFSOCK`: the file type bits of a socket, which libc defines
/// as 0o140000 on Linux; the value stated here holds for Linux
/// targets only (elsewhere libc's type is not `u32`).
#[verifier::external_body]
fn s_ifsock() -> (r: u32)
    ensures
        r == 0o140000,
{
    libc::S_IFSOCK
}

/// The file type bits of a file mode.
pub open spec fn spec_type_bits(kind: FileType) -> u32 {
    match kind {
        FileType::NamedPipe => 0o10000,
        FileType::CharDevice => 0o20000,
        FileType::BlockDevice => 0o60000,
        FileType::Directory => 0o40000,
        FileType::RegularFile => 0o100000,
        FileType::Symlink => 0o120000,
        FileType::Socket => 0o140000,
    }
}

/// The file mode of a file of type `kind` with permission bits `perm`.
pub open spec fn spec_mode(kind: FileType, perm: u16) -> u32 {
    spec_type_bits(kind) | (perm as u32)
}

/// The file mode (type bits and permission bits) the kernel expects.
pub fn mode_from_kind_and_perm(kind: FileType, perm: u16) -> (r: u32)
    ensures
        r == spec_mode(kind, perm),
{
    let bits: u32 = match kind {
        FileType::NamedPipe => s_ififo(),
        FileType::CharDevice => s_ifchr(),
        FileType::BlockDevice => s_ifblk(),
        FileType::Directory => s_ifdir(),
        FileType::RegularFile => s_ifreg(),
        FileType::Symlink => s_iflnk(),
        FileType::Socket => s_ifsock(),
    };
    bits | (perm as u32)
}

/// The directory entry type (`DT_*`) of a file type: its file type bits shifted down.
pub open spec fn spec_dirent_type(kind: FileType) -> u32 {
    spec_mode(kind, 0) >> 12u32
}

/// The directory entry type of a file type, as directory listings carry it.
pub fn dirent_type(kind: FileType) -> (r: u32)
    ensures
        r == spec_dirent_type(kind),
{
    mode_from_kind_and_perm(kind, 0) >> 12u32
}

/// The kernel's view of a file's attributes.
pub open spec fn spec_fuse_attr(attr: FileAttr) -> FuseAttr {
    FuseAttr {
        ino: attr.ino,
        size: attr.size,
        blocks: attr.blocks,
        atime: attr.atime.secs,
        mtime: attr.mtime.secs,
        ctime: attr.ctime.secs,
        atimensec: attr.atime.nanos,
        mtimensec: attr.mtime.nanos,
        ctimensec: attr.ctime.nanos,
        mode: spec_mode(attr.kind, attr.perm),
        nlink: attr.nlink,
        uid: attr.uid,
        gid: attr.gid,
        rdev: attr.rdev,
        blksize: attr.blksize,
        padding: 0,
    }
}

/// Convert file attributes into the kernel's structure.
pub fn fuse_attr_from_attr(attr: &FileAttr) -> (r: FuseAttr)
    ensures
        r == spec_fuse_attr(*attr),
{
    FuseAttr {
        ino: attr.ino,
        size: attr.size,
        blocks: attr.blocks,
        atime: attr.atime.secs,
        mtime: attr.mtime.secs,
        ctime: attr.ctime.secs,
        atimensec: attr.atime.nanos,
        mtimensec: attr.mtime.nanos,
        ctimensec: attr.ctime.nanos,
        mode: mode_from_kind_and_perm(attr.kind, attr.perm),
        nlink: attr.nlink,
        uid: attr.uid,
        gid: attr.gid,
        rdev: attr.rdev,
        blksize: attr.blksize,
        padding: 0,
    }
}

/// The flags requested by default from a kernel with `capabilities`: asynchronous
/// reads and big writes, plus `max_pages` when the kernel supports it.
pub open spec fn spec_default_init_flags(capabilities: u64) -> u64 {
    if capabilities & FUSE_MAX_PAGES != 0 {
        INIT_FLAGS | FUSE_MAX_PAGES
    } else {
        INIT_FLAGS
    }
}

/// The flags requested by default from a kernel with `capabilities`.
pub fn default_init_flags(capabilities: u64) -> (r: u64)
    ensures
        r == spec_default_init_flags(capabilities),
{
    let mut flags = INIT_FLAGS;
    if capabilities & FUSE_MAX_PAGES != 0 {
        flags = flags | FUSE_MAX_PAGES;
    }
    flags
}

/// Configuration of the fuse kernel module connection
#[derive(Debug)]
pub struct KernelConfig {
    pub(crate) capabilities: u64,
    pub(crate) requested: u64,
    pub(crate) max_readahead: u32,
    pub(crate) max_max_readahead: u32,
    pub(crate) max_background: u16,
    pub(crate) congestion_threshold: Option<u16>,
    pub(crate) max_write: u32,
    pub(crate) time_gran_nanos: u32,
    pub(crate) max_stack_depth: u32,
}

/// The settings a `KernelConfig` holds.
#[derive(Clone, Copy, Debug, PartialEq, Eq, Structural)]
pub struct KernelConfigView {
    /// Capabilities the kernel announced
    pub capabilities: u64,
    /// Flags the filesystem asks the kernel to enable
    pub requested: u64,
    /// Maximum readahead
    pub max_readahead: u32,
    /// The kernel's own maximum readahead; the readahead cannot be raised above it
    pub max_max_readahead: u32,
    /// Maximum number of pending background requests
    pub max_background: u16,
    /// Threshold of background requests for congestion, if set
    pub congestion_threshold: Option<u16>,
    /// Maximum size of a single write
    pub max_write: u32,
    /// Timestamp granularity in nanoseconds
    pub time_gran_nanos: u32,
    /// Maximum stacking depth of the filesystem
    pub max_stack_depth: u32,
}

impl View for KernelConfig {
    type V = KernelConfigView;

    closed spec fn view(&self) -> KernelConfigView {
        KernelConfigView {
            capabilities: self.capabilities,
            requested: self.requested,
            max_readahead: self.max_readahead,
            max_max_readahead: self.max_max_readahead,
            max_background: self.max_background,
            congestion_threshold: self.congestion_threshold,
            max_write: self.max_write,
            time_gran_nanos: self.time_gran_nanos,
            max_stack_depth: self.max_stack_depth,
        }
    }
}

/// A value of time granularity the kernel accepts: a power of ten nanoseconds, from
/// one nanosecond to one second.
pub open spec fn spec_valid_time_gran(nanos: int) -> bool {
    nanos == 1 || nanos == 10 || nanos == 100 || nanos == 1_000 || nanos == 10_000
        || nanos == 100_000 || nanos == 1_000_000 || nanos == 10_000_000 || nanos == 100_000_000
        || nanos == 1_000_000_000
}

/// The outcome of asking for a time granularity of `nanos` nanoseconds: `Ok(())` when
/// it is accepted, else `Err` with the nearest accepted value: one nanosecond below
/// the range, one second above it, and otherwise the nearer of the two powers of ten
/// around `nanos`.
pub open spec fn spec_time_gran_check(nanos: int) -> Result<(), u32> {
    if nanos == 0 {
        Err(1)
    } else if nanos > 1_000_000_000 {
        Err(1_000_000_000)
    } else if spec_valid_time_gran(nanos) {
        Ok(())
    } else {
        Err(spec_nearest_pow10(nanos) as u32)
    }
}

/// The power of ten nearest to `nanos`, for `1 <= nanos <= 10^9`: of the power just
/// below and the one just above, the nearer, and the lower one when both are as near.
pub open spec fn spec_nearest_pow10(nanos: int) -> int {
    let lo = spec_pow10_below(nanos);
    if nanos - lo <= 10 * lo - nanos { lo } else { 10 * lo }
}

/// The largest power of ten at most `nanos`, for `1 <= nanos <= 10^9`.
pub open spec fn spec_pow10_below(nanos: int) -> int {
    if nanos < 10 { 1 }
    else if nanos < 100 { 10 }
    else if nanos < 1_000 { 100 }
    else if nanos < 10_000 { 1_000 }
    else if nanos < 100_000 { 10_000 }
    else if nanos < 1_000_000 { 100_000 }
    else if nanos < 10_000_000 { 1_000_000 }
    else if nanos < 100_000_000 { 10_000_000 }
    else if nanos < 1_000_000_000 { 100_000_000 }
    else { 1_000_000_000 }
}

/// Check a time granularity of `nanos` nanoseconds.
pub fn check_time_granularity(nanos: u128) -> (r: Result<(), u32>)
    ensures
        r == spec_time_gran_check(nanos as int),
{
    if nanos == 0 {
        return Err(1);
    }
    if nanos > 1_000_000_000 {
        return Err(1_000_000_000);
    }
    let mut power_of_10: u128 = 1;
    while power_of_10 < nanos
        invariant
            1 <= nanos <= 1_000_000_000,
            spec_valid_time_gran(power_of_10 as int),
            power_of_10 <= nanos,
            spec_pow10_below(nanos as int) >= power_of_10,
        decreases nanos - power_of_10,
    {
        if nanos < power_of_10 * 10 {
            // nanos lies strictly between two powers of ten: answer the nearer one
            let upper = power_of_10 * 10;
            if nanos - power_of_10 <= upper - nanos {
                return Err(power_of_10 as u32);
            } else {
                return Err(upper as u32);
            }
        }
        power_of_10 = power_of_10 * 10;
    }
    Ok(())
}

impl KernelConfigView {
    /// The settings are consistent: writes are between 1 byte and the session's buffer
    /// limit, the readahead does not exceed the kernel's maximum, at least one
    /// background request is allowed, a congestion threshold set is at least 1, the
    /// time granularity is accepted by the kernel and the stacking depth is supported.
    pub open spec fn wf(self) -> bool {
        &&& 1 <= self.max_write <= MAX_WRITE_SIZE
        &&& self.max_readahead <= self.max_max_readahead
        &&& self.max_background >= 1
        &&& (self.congestion_threshold matches Some(t) ==> t >= 1)
        &&& spec_valid_time_gran(self.time_gran_nanos as int)
        &&& self.max_stack_depth <= FILESYSTEM_MAX_STACK_DEPTH
    }

    /// The congestion threshold the kernel is told: 3/4 of the maximum of background
    /// requests by default, else the threshold set, capped at that maximum.
    pub open spec fn congestion(self) -> u16 {
        match self.congestion_threshold {
            None => ((self.max_background as u32 * 3) / 4) as u16,
            Some(value) => if value < self.max_background { value } else { self.max_background },
        }
    }

    /// Setting the stacking depth: the outcome and the settings after it.
    pub open spec fn set_max_stack_depth(self, value: u32) -> (Result<u32, u32>, KernelConfigView) {
        if value > FILESYSTEM_MAX_STACK_DEPTH {
            (Err(FILESYSTEM_MAX_STACK_DEPTH), self)
        } else {
            (Ok(self.max_stack_depth), KernelConfigView { max_stack_depth: value, ..self })
        }
    }

    /// Setting the time granularity (in nanoseconds): the outcome and the settings
    /// after it.
    pub open spec fn set_time_granularity(self, nanos: int) -> (Result<u32, u32>, KernelConfigView) {
        match spec_time_gran_check(nanos) {
            Ok(()) => (Ok(self.time_gran_nanos), KernelConfigView { time_gran_nanos: nanos as u32, ..self }),
            Err(nearest) => (Err(nearest), self),
        }
    }

    /// Setting the maximum write size: the outcome and the settings after it.
    pub open spec fn set_max_write(self, value: u32) -> (Result<u32, u32>, KernelConfigView) {
        if value == 0 {
            (Err(1), self)
        } else if value > MAX_WRITE_SIZE {
            (Err(MAX_WRITE_SIZE), self)
        } else {
            (Ok(self.max_write), KernelConfigView { max_write: value, ..self })
        }
    }

    /// Setting the maximum readahead: the outcome and the settings after it.
    pub open spec fn set_max_readahead(self, value: u32) -> (Result<u32, u32>, KernelConfigView) {
        if value == 0 {
            (Err(1), self)
        } else if value > self.max_max_readahead {
            (Err(self.max_max_readahead), self)
        } else {
            (Ok(self.max_readahead), KernelConfigView { max_readahead: value, ..self })
        }
    }

    /// Adding capabilities to the requested flags: the outcome and the settings after
    /// it. The error holds the bits the kernel does not support.
    pub open spec fn add_capabilities(self, to_add: u64) -> (Result<(), u64>, KernelConfigView) {
        if to_add & self.capabilities != to_add {
            (Err((to_add - (to_add & self.capabilities)) as u64), self)
        } else {
            (Ok(()), KernelConfigView { requested: self.requested | to_add, ..self })
        }
    }

    /// Setting the maximum of background requests: the outcome and the settings after it.
    pub open spec fn set_max_background(self, value: u16) -> (Result<u16, u16>, KernelConfigView) {
        if value == 0 {
            (Err(1), self)
        } else {
            (Ok(self.max_background), KernelConfigView { max_background: value, ..self })
        }
    }

    /// Setting the congestion threshold: the outcome (the threshold in effect before)
    /// and the settings after it.
    pub open spec fn set_congestion_threshold(self, value: u16) -> (Result<u16, u16>, KernelConfigView) {
        if value == 0 {
            (Err(1), self)
        } else {
            (Ok(self.congestion()), KernelConfigView { congestion_threshold: Some(value), ..self })
        }
    }
}

/// The configuration `KernelConfig::new` makes for a kernel with `capabilities` that
/// proposed `max_readahead`.
pub open spec fn spec_new_config(capabilities: u64, max_readahead: u32) -> KernelConfigView {
    KernelConfigView {
        capabilities,
        requested: spec_default_init_flags(capabilities),
        max_readahead,
        max_max_readahead: max_readahead,
        max_background: 16,
        congestion_threshold: None,
        max_write: MAX_WRITE_SIZE,
        time_gran_nanos: 1,
        max_stack_depth: 0,
    }
}

impl KernelConfig {
    /// The configuration's settings are consistent.
    #[verifier::type_invariant]
    closed spec fn inv(self) -> bool {
        self@.wf()
    }

    /// A configuration for a kernel with `capabilities` that proposed
    /// `max_readahead`: default flags, 16 background requests, no congestion
    /// threshold, maximal writes, nanosecond time granularity, no stacking.
    pub fn new(capabilities: u64, max_readahead: u32) -> (r: Self)
        ensures
            r@ == spec_new_config(capabilities, max_readahead),
            r@.wf(),
    {
        KernelConfig {
            capabilities,
            requested: default_init_flags(capabilities),
            max_readahead,
            max_max_readahead: max_readahead,
            max_background: 16,
            congestion_threshold: None,
            max_write: MAX_WRITE_SIZE,
            time_gran_nanos: 1,
            max_stack_depth: 0,
        }
    }

    /// Set the maximum stacking depth of the filesystem
    ///
    /// This has to be at least 1 to support passthrough to backing files.  Setting this to 0 (the
    /// default) effectively disables support for passthrough.
    ///
    /// With max_stack_depth > 1, the backing files can be on a stacked fs (e.g. overlayfs)
    /// themselves and with max_stack_depth == 1, this FUSE filesystem can be stacked as the
    /// underlying fs of a stacked fs (e.g. overlayfs).
    ///
    /// The kernel currently has a hard maximum value of 2.  Anything higher won't work.
    ///
    /// On success, returns the previous value.  On error, returns the nearest value which will succeed.
    pub fn set_max_stack_depth(&mut self, value: u32) -> (r: Result<u32, u32>)
        ensures
            (r, final(self)@) == old(self)@.set_max_stack_depth(value),
    {
        proof {
            use_type_invariant(&*self);
        }
        if value > FILESYSTEM_MAX_STACK_DEPTH {
            return Err(FILESYSTEM_MAX_STACK_DEPTH);
        }
        let previous = self.max_stack_depth;
        self.max_stack_depth = value;
        Ok(previous)
    }

    /// Set the timestamp granularity, given in nanoseconds.
    ///
    /// Must be a power of 10 nanoseconds, from 1ns to 1s.
    ///
    /// On success returns the previous value. On error returns the nearest value which will succeed
    pub fn set_time_granularity_nanos(&mut self, nanos: u128) -> (r: Result<u32, u32>)
        ensures
            (r, final(self)@) == old(self)@.set_time_granularity(nanos as int),
    {
        proof {
            use_type_invariant(&*self);
        }
        match check_time_granularity(nanos) {
            Ok(()) => {
                let previous = self.time_gran_nanos;
                self.time_gran_nanos = nanos as u32;
                Ok(previous)
            },
            Err(nearest) => Err(nearest),
        }
    }

    /// Set the timestamp granularity
    ///
    /// Must be a power of 10 nanoseconds. i.e. 1s, 0.1s, 0.01s, 1ms, 0.1ms...etc
    ///
    /// On success returns the previous value. On error returns the nearest value which will succeed
    ///
    /// The configuration changes and the call succeeds exactly as
    /// `set_time_granularity_nanos` does for the length of `value` in nanoseconds, and
    /// the previous or nearest value comes back as a `Duration` of that many
    /// nanoseconds.
    pub fn set_time_granularity(&mut self, value: Duration) -> (r: Result<Duration, Duration>)
        ensures
            final(self)@ == old(self)@.set_time_granularity(spec_duration_nanos(value)).1,
            match old(self)@.set_time_granularity(spec_duration_nanos(value)).0 {
                Ok(previous) => r matches Ok(d) && spec_duration_nanos(d) == previous,
                Err(nearest) => r matches Err(d) && spec_duration_nanos(d) == nearest,
            },
    {
        let nanos = duration_nanos(&value);
        match self.set_time_granularity_nanos(nanos) {
            Ok(previous) => Ok(duration_from_nanos(previous)),
            Err(nearest) => Err(duration_from_nanos(nearest)),
        }
    }

    /// Set the maximum write size for a single request
    ///
    /// On success returns the previous value. On error returns the nearest value which will succeed
    pub fn set_max_write(&mut self, value: u32) -> (r: Result<u32, u32>)
        ensures
            (r, final(self)@) == old(self)@.set_max_write(value),
    {
        proof {
            use_type_invariant(&*self);
        }
        if value == 0 {
            return Err(1);
        }
        if value > MAX_WRITE_SIZE {
            return Err(MAX_WRITE_SIZE);
        }
        let previous = self.max_write;
        self.max_write = value;
        Ok(previous)
    }

    /// Set the maximum readahead size
    ///
    /// On success returns the previous value. On error returns the nearest value which will succeed
    pub fn set_max_readahead(&mut self, value: u32) -> (r: Result<u32, u32>)
        ensures
            (r, final(self)@) == old(self)@.set_max_readahead(value),
    {
        proof {
            use_type_invariant(&*self);
        }
        if value == 0 {
            return Err(1);
        }
        if value > self.max_max_readahead {
            return Err(self.max_max_readahead);
        }
        let previous = self.max_readahead;
        self.max_readahead = value;
        Ok(previous)
    }

    /// Add a set of capabilities.
    ///
    /// On success returns Ok, else return bits of capabilities not supported when capabilities you provided are not all supported by kernel.
    pub fn add_capabilities(&mut self, capabilities_to_add: u64) -> (r: Result<(), u64>)
        ensures
            (r, final(self)@) == old(self)@.add_capabilities(capabilities_to_add),
    {
        proof {
            use_type_invariant(&*self);
        }
        let supported = self.capabilities;
        if capabilities_to_add & supported != capabilities_to_add {
            assert(capabilities_to_add & supported <= capabilities_to_add) by (bit_vector);
            return Err(capabilities_to_add - (capabilities_to_add & supported));
        }
        self.requested = self.requested | capabilities_to_add;
        Ok(())
    }

    /// Set the maximum number of pending background requests. Such as readahead requests.
    ///
    /// On success returns the previous value. On error returns the nearest value which will succeed
    pub fn set_max_background(&mut self, value: u16) -> (r: Result<u16, u16>)
        ensures
            (r, final(self)@) == old(self)@.set_max_background(value),
    {
        proof {
            use_type_invariant(&*self);
        }
        if value == 0 {
            return Err(1);
        }
        let previous = self.max_background;
        self.max_background = value;
        Ok(previous)
    }

    /// Set the threshold of background requests at which the kernel will consider the filesystem
    /// request queue congested. (it may then switch to sleeping instead of spin-waiting, for example)
    ///
    /// On success returns the previous value. On error returns the nearest value which will succeed
    pub fn set_congestion_threshold(&mut self, value: u16) -> (r: Result<u16, u16>)
        ensures
            (r, final(self)@) == old(self)@.set_congestion_threshold(value),
    {
        proof {
            use_type_invariant(&*self);
        }
        if value == 0 {
            return Err(1);
        }
        let previous = self.congestion_threshold();
        self.congestion_threshold = Some(value);
        Ok(previous)
    }

    /// The congestion threshold the kernel is told.
    pub fn congestion_threshold(&self) -> (r: u16)
        ensures
            r == self@.congestion(),
    {
        match self.congestion_threshold {
            None => ((self.max_background as u32 * 3) / 4) as u16,
            Some(value) => if value < self.max_background { value } else { self.max_background },
        }
    }

    /// The flags the filesystem asks the kernel to enable.
    pub fn requested(&self) -> (r: u64)
        ensures
            r == self@.requested,
    {
        self.requested
    }

    /// The number of pages of the larger of a write and a readahead, for memory pages
    /// of `page_size` bytes.
    pub fn max_pages_for(&self, page_size: usize) -> (r: u16)
        ensures
            r == spec_max_pages(self@, page_size),
    {
        proof {
            use_type_invariant(self);
        }
        let largest = if self.max_write >= self.max_readahead { self.max_write } else { self.max_readahead };
        let truncated = page_size as u32;
        let divisor = if truncated == 0 { 1 } else { truncated };
        let quotient = ((largest - 1) / divisor) as u16;
        if quotient == u16::MAX { 0 } else { quotient + 1 }
    }

    /// The number of memory pages of the larger of a write and a readahead. The page
    /// size is the system's, read through a trusted call.
    pub fn max_pages(&self) -> (r: u16)
        ensures
            exists|page_size: usize| r == spec_max_pages(self@, page_size),
    {
        let page_size = system_page_size();
        self.max_pages_for(page_size)
    }

    /// The answer to the kernel's init handshake, enabling `flags`, for memory pages of
    /// `page_size` bytes.
    pub fn init_out_for(&self, flags: u64, page_size: usize) -> (r: FuseInitOut)
        ensures
            spec_init_out_fields(r, self@, flags, page_size),
    {
        FuseInitOut {
            major: FUSE_KERNEL_VERSION,
            minor: FUSE_KERNEL_MINOR_VERSION,
            max_readahead: self.max_readahead,
            flags: (flags | FUSE_INIT_EXT) as u32,
            max_background: self.max_background,
            congestion_threshold: self.congestion_threshold(),
            max_write: self.max_write,
            time_gran: self.time_gran_nanos,
            max_pages: self.max_pages_for(page_size),
            unused2: 0,
            flags2: (flags >> 32u64) as u32,
            max_stack_depth: self.max_stack_depth,
            reserved: [0u32; 6],
        }
    }

    /// The answer to the kernel's init handshake, enabling `flags`. The page size is the
    /// system's, read through a trusted call; every other field is fixed by the
    /// configuration and `flags`.
    pub fn into_fuse_init_out(self, flags: u64) -> (r: FuseInitOut)
        ensures
            exists|page_size: usize| spec_init_out_fields(r, self@, flags, page_size),
    {
        let page_size = system_page_size();
        self.init_out_for(flags, page_size)
    }

    /// The answer to an init request of a kernel with `capabilities`: the flags enabled
    /// are those both requested and supported.
    pub fn init_reply(self, capabilities: u64) -> (r: FuseInitOut)
        ensures
            exists|page_size: usize| spec_init_out_fields(r, self@, capabilities & self@.requested, page_size),
    {
        let flags = capabilities & self.requested;
        assert(flags == capabilities & self@.requested);
        self.into_fuse_init_out(flags)
    }
}

/// Calls `page_size::get`: the memory page size of the system. The crate reads it from
/// the operating system (`sysconf(_SC_PAGESIZE)` on Unix), so nothing is stated of it.
#[verifier::external_body]
fn system_page_size() -> usize {
    page_size::get()
}

/// The number of pages of `page_size` bytes that the larger of a write and a readahead
/// spans, as a 16-bit count: `(largest - 1) / page_size + 1`. The page size is taken as
/// 32 bits, and as 1 where it is 0 there; a count that does not fit wraps to 0.
pub open spec fn spec_max_pages(v: KernelConfigView, page_size: usize) -> u16 {
    let largest = if v.max_write >= v.max_readahead { v.max_write } else { v.max_readahead };
    let divisor: u32 = if page_size as u32 == 0 { 1 } else { page_size as u32 };
    let quotient = (((largest - 1) as u32) / divisor) as u16;
    if quotient == u16::MAX { 0 } else { (quotient + 1) as u16 }
}

/// The fields of the init reply for the settings `v`, enabling `flags`, for memory
/// pages of `page_size` bytes.
pub open spec fn spec_init_out_fields(r: FuseInitOut, v: KernelConfigView, flags: u64, page_size: usize) -> bool {
    &&& r.major == FUSE_KERNEL_VERSION
    &&& r.minor == FUSE_KERNEL_MINOR_VERSION
    &&& r.max_readahead == v.max_readahead
    &&& r.flags == (flags | FUSE_INIT_EXT) as u32
    &&& r.max_background == v.max_background
    &&& r.congestion_threshold == v.congestion()
    &&& r.max_write == v.max_write
    &&& r.time_gran == v.time_gran_nanos
    &&& r.max_pages == spec_max_pages(v, page_size)
    &&& r.unused2 == 0
    &&& r.flags2 == (flags >> 32u64) as u32
    &&& r.max_stack_depth == v.max_stack_depth
    &&& forall|i: int| 0 <= i < 6 ==> r.reserved[i] == 0
}

} // verus!

verus! {

/// Each setter answers an error with a value that the same setter then accepts
/// ("on error returns the nearest value which will succeed"). For the readahead this
/// holds when the kernel allows any readahead at all: with a kernel maximum of 0 every
/// value is refused.
pub proof fn law_setter_errors_are_accepted(v: KernelConfigView, value32: u32, value16: u16, nanos: int)
    requires
        v.wf(),
    ensures
        v.set_max_write(value32).0 matches Err(n) ==> v.set_max_write(n).0 is Ok,
        v.set_max_stack_depth(value32).0 matches Err(n) ==> v.set_max_stack_depth(n).0 is Ok,
        v.set_max_background(value16).0 matches Err(n) ==> v.set_max_background(n).0 is Ok,
        v.set_congestion_threshold(value16).0 matches Err(n) ==> v.set_congestion_threshold(n).0 is Ok,
        v.set_time_granularity(nanos).0 matches Err(n) ==> v.set_time_granularity(n as int).0 is Ok,
        v.max_max_readahead >= 1 ==> (v.set_max_readahead(value32).0 matches Err(n)
            ==> v.set_max_readahead(n).0 is Ok),
{
}

/// Each setter returns the previous value on success, and setting that value again
/// undoes the change. For the readahead this needs a previous readahead other than 0
/// (a kernel may propose 0, which no setter call can restore).
pub proof fn law_setters_undo(v: KernelConfigView, value32: u32, value16: u16, nanos: int)
    requires
        v.wf(),
    ensures
        v.set_max_write(value32) matches (Ok(p), v2) ==> v2.set_max_write(p) == (Ok::<u32, u32>(value32), v),
        v.set_max_stack_depth(value32) matches (Ok(p), v2) ==> v2.set_max_stack_depth(p) == (Ok::<u32, u32>(value32), v),
        v.set_max_background(value16) matches (Ok(p), v2) ==> v2.set_max_background(p) == (Ok::<u16, u16>(value16), v),
        v.set_time_granularity(nanos) matches (Ok(p), v2) ==> v2.set_time_granularity(p as int) == (Ok::<u32, u32>(nanos as u32), v),
        v.max_readahead != 0 ==> (v.set_max_readahead(value32) matches (Ok(p), v2)
            ==> v2.set_max_readahead(p) == (Ok::<u32, u32>(value32), v)),
{
}

/// Setting the congestion threshold returns the threshold in effect before; setting
/// that value again puts the same threshold back in effect. This needs a threshold
/// in effect other than 0 (the default with one background request is 0, which the
/// setter refuses).
pub proof fn law_congestion_threshold_undo(v: KernelConfigView, value: u16)
    requires
        v.wf(),
        v.congestion() != 0,
    ensures
        v.set_congestion_threshold(value) matches (Ok(p), v2) ==> ({
            let (r2, v3) = v2.set_congestion_threshold(p);
            &&& r2 == Ok::<u16, u16>(if value < v.max_background { value } else { v.max_background })
            &&& v3.congestion() == v.congestion()
        }),
{
}

/// The congestion threshold in effect never exceeds the maximum of background requests.
pub proof fn law_congestion_threshold_bounded(v: KernelConfigView)
    ensures
        v.congestion() <= v.max_background,
{
}

/// Every setter keeps the settings consistent.
pub proof fn law_setters_keep_settings_consistent(v: KernelConfigView, value32: u32, value16: u16, nanos: int, to_add: u64)
    requires
        v.wf(),
    ensures
        v.set_max_write(value32).1.wf(),
        v.set_max_stack_depth(value32).1.wf(),
        v.set_max_readahead(value32).1.wf(),
        v.set_max_background(value16).1.wf(),
        v.set_congestion_threshold(value16).1.wf(),
        v.set_time_granularity(nanos).1.wf(),
        v.add_capabilities(to_add).1.wf(),
{
}

/// Adding capabilities either fails with exactly the requested bits the kernel does
/// not support (and changes nothing), or succeeds and requests all of them on top of
/// what was requested before.
pub proof fn law_add_capabilities(v: KernelConfigView, to_add: u64)
    ensures
        v.add_capabilities(to_add) matches (Err(bits), v2) ==> {
            &&& bits == to_add & !v.capabilities
            &&& bits != 0
            &&& v2 == v
        },
        v.add_capabilities(to_add) matches (Ok(()), v2) ==> {
            &&& v2.requested & to_add == to_add
            &&& v2.requested & v.requested == v.requested
            &&& to_add & v.capabilities == to_add
        },
{
    let caps = v.capabilities;
    let req = v.requested;
    assert(to_add & caps != to_add ==> (to_add - (to_add & caps)) as u64 == to_add & !caps
        && to_add & !caps != 0) by (bit_vector);
    assert((req | to_add) & to_add == to_add && (req | to_add) & req == req) by (bit_vector);
}


/// The file mode the kernel receives for a file of type `kind` with permission bits
/// `perm` (at most `0o7777`) holds the type's `S_IF*` bits in its format field and the
/// permission bits below it; a directory listing carries the type as its `DT_*`
/// value, the format field shifted down by 12 bits.
pub proof fn law_mode_and_dirent_type(kind: FileType, perm: u16)
    requires
        perm <= 0o7777,
    ensures
        spec_mode(kind, perm) & 0o7777 == perm as u32,
        spec_mode(kind, perm) & 0o170000 == match kind {
            FileType::NamedPipe => 0o10000u32,
            FileType::CharDevice => 0o20000u32,
            FileType::BlockDevice => 0o60000u32,
            FileType::Directory => 0o40000u32,
            FileType::RegularFile => 0o100000u32,
            FileType::Symlink => 0o120000u32,
            FileType::Socket => 0o140000u32,
        },
        spec_dirent_type(kind) == match kind {
            FileType::NamedPipe => 1u32,
            FileType::CharDevice => 2u32,
            FileType::BlockDevice => 6u32,
            FileType::Directory => 4u32,
            FileType::RegularFile => 8u32,
            FileType::Symlink => 10u32,
            FileType::Socket => 12u32,
        },
{
    let t = spec_type_bits(kind);
    let p = perm as u32;
    assert((t | p) & 0o7777 == p && (t | p) & 0o170000 == t && (t | 0) >> 12u32 == t >> 12u32
        && (t == 0o10000 ==> t >> 12u32 == 1) && (t == 0o20000 ==> t >> 12u32 == 2)
        && (t == 0o60000 ==> t >> 12u32 == 6) && (t == 0o40000 ==> t >> 12u32 == 4)
        && (t == 0o100000 ==> t >> 12u32 == 8) && (t == 0o120000 ==> t >> 12u32 == 10)
        && (t == 0o140000 ==> t >> 12u32 == 12)) by (bit_vector)
        requires
            p <= 0o7777,
            t == 0o10000 || t == 0o20000 || t == 0o60000 || t == 0o40000 || t == 0o100000 || t == 0o120000
                || t == 0o140000,
    ;
}


/// The wire bytes of an init reply hold each of its fields at its offset in
/// `fuse_init_out`.
#[verifier::spinoff_prover]
#[verifier::rlimit(60)]
proof fn lemma_init_out_bytes(r: FuseInitOut)
    ensures
        ({
            let b = r.spec_bytes();
            &&& b.len() == 64
            &&& spec_read_u32(b, 0) == r.major
            &&& spec_read_u32(b, 4) == r.minor
            &&& spec_read_u32(b, 8) == r.max_readahead
            &&& spec_read_u32(b, 12) == r.flags
            &&& b.subrange(16, 18) == le_u16(r.max_background)
            &&& b.subrange(18, 20) == le_u16(r.congestion_threshold)
            &&& spec_read_u32(b, 20) == r.max_write
            &&& spec_read_u32(b, 24) == r.time_gran
            &&& b.subrange(28, 30) == le_u16(r.max_pages)
            &&& spec_read_u32(b, 32) == r.flags2
            &&& spec_read_u32(b, 36) == r.max_stack_depth
        }),
{
    let head = le_u32(r.major) + le_u32(r.minor) + le_u32(r.max_readahead) + le_u32(r.flags)
        + le_u16(r.max_background) + le_u16(r.congestion_threshold) + le_u32(r.max_write) + le_u32(r.time_gran)
        + le_u16(r.max_pages) + le_u16(r.unused2) + le_u32(r.flags2) + le_u32(r.max_stack_depth);
    let tail = le_u32(r.reserved[0]) + le_u32(r.reserved[1]) + le_u32(r.reserved[2]) + le_u32(r.reserved[3])
        + le_u32(r.reserved[4]) + le_u32(r.reserved[5]);
    let b = r.spec_bytes();
    assert(b =~= head + tail);
    assert(head.len() == 40 && tail.len() == 24);
    assert(head.subrange(0, 4) =~= le_u32(r.major));
    law_read_u32_at(head, 0, r.major);
    assert(head.subrange(4, 8) =~= le_u32(r.minor));
    law_read_u32_at(head, 4, r.minor);
    assert(head.subrange(8, 12) =~= le_u32(r.max_readahead));
    law_read_u32_at(head, 8, r.max_readahead);
    assert(head.subrange(12, 16) =~= le_u32(r.flags));
    law_read_u32_at(head, 12, r.flags);
    assert(head.subrange(16, 18) =~= le_u16(r.max_background));
    assert(head.subrange(18, 20) =~= le_u16(r.congestion_threshold));
    assert(head.subrange(20, 24) =~= le_u32(r.max_write));
    law_read_u32_at(head, 20, r.max_write);
    assert(head.subrange(24, 28) =~= le_u32(r.time_gran));
    law_read_u32_at(head, 24, r.time_gran);
    assert(head.subrange(28, 30) =~= le_u16(r.max_pages));
    assert(head.subrange(32, 36) =~= le_u32(r.flags2));
    law_read_u32_at(head, 32, r.flags2);
    assert(head.subrange(36, 40) =~= le_u32(r.max_stack_depth));
    law_read_u32_at(head, 36, r.max_stack_depth);
    assert(b.subrange(0, 40) =~= head);
    law_read_u32_reads_prefix(b, head, 0);
    law_read_u32_reads_prefix(b, head, 4);
    law_read_u32_reads_prefix(b, head, 8);
    law_read_u32_reads_prefix(b, head, 12);
    law_read_u32_reads_prefix(b, head, 20);
    law_read_u32_reads_prefix(b, head, 24);
    law_read_u32_reads_prefix(b, head, 32);
    law_read_u32_reads_prefix(b, head, 36);
    assert(b.subrange(16, 18) =~= head.subrange(16, 18));
    assert(b.subrange(18, 20) =~= head.subrange(18, 20));
    assert(b.subrange(28, 30) =~= head.subrange(28, 30));
}

/// The init reply answering with configuration `v` and the enabled `flags` carries
/// the protocol version 7.40, the readahead, the low 32 flag bits (with
/// `FUSE_INIT_EXT`), the background limit and congestion threshold, the maximum write
/// size, the time granularity, the maximum pages, the high 32 flag bits and the
/// stacking depth, each at its offset in `fuse_init_out`.
pub proof fn law_init_reply_layout(r: FuseInitOut, v: KernelConfigView, flags: u64, page_size: usize)
    requires
        spec_init_out_fields(r, v, flags, page_size),
    ensures
        ({
            let b = r.spec_bytes();
            &&& b.len() == 64
            &&& spec_read_u32(b, 0) == 7
            &&& spec_read_u32(b, 4) == 40
            &&& spec_read_u32(b, 8) == v.max_readahead
            &&& spec_read_u32(b, 12) == (flags | FUSE_INIT_EXT) as u32
            &&& b.subrange(16, 18) == le_u16(v.max_background)
            &&& b.subrange(18, 20) == le_u16(v.congestion())
            &&& spec_read_u32(b, 20) == v.max_write
            &&& spec_read_u32(b, 24) == v.time_gran_nanos
            &&& b.subrange(28, 30) == le_u16(spec_max_pages(v, page_size))
            &&& spec_read_u32(b, 32) == (flags >> 32u64) as u32
            &&& spec_read_u32(b, 36) == v.max_stack_depth
        }),
{
    lemma_init_out_bytes(r);
}


/// The distance between `a` and `b`.
pub open spec fn spec_distance(a: int, b: int) -> int {
    if a >= b { a - b } else { b - a }
}

/// Each setter answers an error with the accepted value nearest to the value asked
/// for ("on error returns the nearest value which will succeed"): no value the same
/// setter accepts is nearer to it.
pub proof fn law_setter_errors_are_nearest(
    v: KernelConfigView,
    value32: u32,
    value16: u16,
    nanos: int,
    m32: u32,
    m16: u16,
    mn: int,
)
    ensures
        v.set_max_write(value32).0 matches Err(n) ==> (v.set_max_write(m32).0 is Ok
            ==> spec_distance(n as int, value32 as int) <= spec_distance(m32 as int, value32 as int)),
        v.set_max_readahead(value32).0 matches Err(n) ==> (v.set_max_readahead(m32).0 is Ok
            ==> spec_distance(n as int, value32 as int) <= spec_distance(m32 as int, value32 as int)),
        v.set_max_stack_depth(value32).0 matches Err(n) ==> (v.set_max_stack_depth(m32).0 is Ok
            ==> spec_distance(n as int, value32 as int) <= spec_distance(m32 as int, value32 as int)),
        v.set_max_background(value16).0 matches Err(n) ==> (v.set_max_background(m16).0 is Ok
            ==> spec_distance(n as int, value16 as int) <= spec_distance(m16 as int, value16 as int)),
        v.set_congestion_threshold(value16).0 matches Err(n) ==> (v.set_congestion_threshold(m16).0 is Ok
            ==> spec_distance(n as int, value16 as int) <= spec_distance(m16 as int, value16 as int)),
        v.set_time_granularity(nanos).0 matches Err(n) ==> (v.set_time_granularity(mn).0 is Ok
            ==> spec_distance(n as int, nanos) <= spec_distance(mn, nanos)),
{
}


/// The page count told to the kernel covers the larger of a write and a readahead: it
/// is the least number of pages of `page_size` bytes that hold it, for a page size
/// that fits 32 bits and a count below the 16-bit limit.
pub proof fn law_max_pages_cover_largest_transfer(v: KernelConfigView, page_size: usize)
    requires
        v.wf(),
        1 <= page_size <= u32::MAX,
        ((if v.max_write >= v.max_readahead { v.max_write } else { v.max_readahead }) - 1) / (page_size as int)
            < 65535,
    ensures
        ({
            let largest = if v.max_write >= v.max_readahead { v.max_write } else { v.max_readahead };
            let c = spec_max_pages(v, page_size) as int;
            &&& (c - 1) * (page_size as int) < largest
            &&& largest <= c * (page_size as int)
        }),
{
    let largest = if v.max_write >= v.max_readahead { v.max_write } else { v.max_readahead };
    let l = largest as int;
    let p = page_size as int;
    let q = (l - 1) / p;
    assert(l >= 1);
    assert((page_size as u32) as int == p);
    assert(((largest - 1) as u32) as int == l - 1);
    assert(((((largest - 1) as u32) / (page_size as u32)) as u16) as int == q);
    assert(spec_max_pages(v, page_size) as int == q + 1);
    assert(q * p <= l - 1 && l - 1 < q * p + p) by (nonlinear_arith)
        requires
            q == (l - 1) / p,
            p >= 1,
            l >= 1,
    ;
    assert((q + 1 - 1) * p < l && l <= (q + 1) * p) by (nonlinear_arith)
        requires
            q * p <= l - 1,
            l - 1 < q * p + p,
    ;
}


/// A new configuration requests asynchronous reads and big writes from every kernel,
/// and `max_pages` exactly from a kernel that supports it; it starts with the default
/// congestion threshold, three quarters of the 16 background requests.
pub proof fn law_new_config_defaults(capabilities: u64, max_readahead: u32)
    ensures
        ({
            let v = spec_new_config(capabilities, max_readahead);
            &&& v.requested & 0x1 != 0
            &&& v.requested & 0x20 != 0
            &&& (v.requested & 0x400000 != 0 <==> capabilities & 0x400000 != 0)
            &&& v.congestion() == 12
            &&& v.max_readahead == max_readahead
        }),
{
    let c = capabilities;
    assert((c & 0x400000 != 0 ==> ((0x21u64 | 0x400000u64) & 0x1 != 0 && (0x21u64 | 0x400000u64) & 0x20 != 0
        && (0x21u64 | 0x400000u64) & 0x400000 != 0)) && (0x21u64 & 0x1 != 0 && 0x21u64 & 0x20 != 0
        && 0x21u64 & 0x400000 == 0)) by (bit_vector);
}

} // verus!
