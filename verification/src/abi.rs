//! The kernel side of the FUSE protocol: constants and the wire layout of the
//! structures a session sends back to the kernel.
//!
//! Every structure is laid out field by field, in declaration order, each integer in
//! little-endian byte order, exactly as the `#[repr(C)]` kernel structures are laid out
//! in memory on a little-endian host (all fields are naturally aligned, so there is no
//! hidden padding).

use vstd::prelude::*;

verus! {

/// Major version of the kernel protocol spoken by this library
pub const FUSE_KERNEL_VERSION: u32 = 7;
/// Minor version of the kernel protocol spoken by this library
pub const FUSE_KERNEL_MINOR_VERSION: u32 = 40;
/// Inode number of the filesystem root
pub const FUSE_ROOT_ID: u64 = 1;

/// Init flag: asynchronous read requests
pub const FUSE_ASYNC_READ: u64 = 0x1;
/// Init flag: large writes
pub const FUSE_BIG_WRITES: u64 = 0x20;
/// Init flag: the `max_pages` field of the init reply is valid
pub const FUSE_MAX_PAGES: u64 = 0x400000;
/// Init flag: the flags of the init reply extend into `flags2`
pub const FUSE_INIT_EXT: u64 = 0x40000000;
/// Open flag: passthrough to a backing file
pub const FOPEN_PASSTHROUGH: u32 = 0x80;

/// Size in bytes of `fuse_out_header`
pub const OUT_HEADER_SIZE: usize = 16;
/// Size in bytes of `fuse_dirent` without its name
pub const DIRENT_SIZE: usize = 24;
/// Size in bytes of `fuse_attr`
pub const ATTR_SIZE: usize = 88;
/// Size in bytes of `fuse_entry_out`
pub const ENTRY_OUT_SIZE: usize = 128;
/// Size in bytes of `fuse_direntplus` without its name
pub const DIRENTPLUS_SIZE: usize = 152;
/// Size in bytes of `fuse_init_out`
pub const INIT_OUT_SIZE: usize = 64;

/* ------ Byte encodings ------ */

/// Little-endian bytes of a `u16`.
pub open spec fn le_u16(x: u16) -> Seq<u8> {
    seq![(x & 0xff) as u8, ((x >> 8u16) & 0xff) as u8]
}

/// Little-endian bytes of a `u32`.
pub open spec fn le_u32(x: u32) -> Seq<u8> {
    seq![
        (x & 0xff) as u8,
        ((x >> 8u32) & 0xff) as u8,
        ((x >> 16u32) & 0xff) as u8,
        ((x >> 24u32) & 0xff) as u8,
    ]
}

/// Little-endian bytes of a `u64`.
pub open spec fn le_u64(x: u64) -> Seq<u8> {
    seq![
        (x & 0xff) as u8,
        ((x >> 8u64) & 0xff) as u8,
        ((x >> 16u64) & 0xff) as u8,
        ((x >> 24u64) & 0xff) as u8,
        ((x >> 32u64) & 0xff) as u8,
        ((x >> 40u64) & 0xff) as u8,
        ((x >> 48u64) & 0xff) as u8,
        ((x >> 56u64) & 0xff) as u8,
    ]
}

/// Two's complement little-endian bytes of an `i32`.
pub open spec fn le_i32(x: i32) -> Seq<u8> {
    le_u32(x as u32)
}

/// Two's complement little-endian bytes of an `i64`.
pub open spec fn le_i64(x: i64) -> Seq<u8> {
    le_u64(x as u64)
}

/// Append the bytes of a `u16`.
pub fn push_u16(out: &mut Vec<u8>, x: u16)
    ensures
        final(out)@ == old(out)@ + le_u16(x),
{
    out.push((x & 0xff) as u8);
    out.push(((x >> 8u16) & 0xff) as u8);
    assert(final(out)@ =~= old(out)@ + le_u16(x));
}

/// Append the bytes of a `u32`.
pub fn push_u32(out: &mut Vec<u8>, x: u32)
    ensures
        final(out)@ == old(out)@ + le_u32(x),
{
    out.push((x & 0xff) as u8);
    out.push(((x >> 8u32) & 0xff) as u8);
    out.push(((x >> 16u32) & 0xff) as u8);
    out.push(((x >> 24u32) & 0xff) as u8);
    assert(final(out)@ =~= old(out)@ + le_u32(x));
}

/// Append the bytes of a `u64`.
pub fn push_u64(out: &mut Vec<u8>, x: u64)
    ensures
        final(out)@ == old(out)@ + le_u64(x),
{
    out.push((x & 0xff) as u8);
    out.push(((x >> 8u64) & 0xff) as u8);
    out.push(((x >> 16u64) & 0xff) as u8);
    out.push(((x >> 24u64) & 0xff) as u8);
    out.push(((x >> 32u64) & 0xff) as u8);
    out.push(((x >> 40u64) & 0xff) as u8);
    out.push(((x >> 48u64) & 0xff) as u8);
    out.push(((x >> 56u64) & 0xff) as u8);
    assert(final(out)@ =~= old(out)@ + le_u64(x));
}

/// Append the bytes of an `i32`.
pub fn push_i32(out: &mut Vec<u8>, x: i32)
    ensures
        final(out)@ == old(out)@ + le_i32(x),
{
    push_u32(out, x as u32);
}

/// Append the bytes of an `i64`.
pub fn push_i64(out: &mut Vec<u8>, x: i64)
    ensures
        final(out)@ == old(out)@ + le_i64(x),
{
    push_u64(out, x as u64);
}

/// Append a byte slice.
pub fn push_bytes(out: &mut Vec<u8>, data: &[u8])
    ensures
        final(out)@ == old(out)@ + data@,
{
    let mut i: usize = 0;
    while i < data.len()
        invariant
            i <= data@.len(),
            out@ == old(out)@ + data@.subrange(0, i as int),
        decreases data@.len() - i,
    {
        out.push(data[i]);
        i = i + 1;
        assert(out@ =~= old(out)@ + data@.subrange(0, i as int));
    }
    assert(data@.subrange(0, data@.len() as int) =~= data@);
}

/* ------ Kernel structures ------ */

/// `fuse_out_header`: precedes every reply
#[derive(Clone, Copy, Debug, PartialEq, Eq, Structural)]
pub struct FuseOutHeader {
    /// Total length of the reply, header included
    pub len: u32,
    /// Negated errno, or 0
    pub error: i32,
    /// Identifier of the request this reply answers
    pub unique: u64,
}

impl FuseOutHeader {
    /// The wire bytes of the header.
    pub open spec fn spec_bytes(self) -> Seq<u8> {
        le_u32(self.len) + le_i32(self.error) + le_u64(self.unique)
    }

    /// Append the wire bytes of the header.
    pub fn encode_into(&self, out: &mut Vec<u8>)
        ensures
            final(out)@ == old(out)@ + self.spec_bytes(),
    {
        push_u32(out, self.len);
        push_i32(out, self.error);
        push_u64(out, self.unique);
        assert(final(out)@ =~= old(out)@ + self.spec_bytes());
    }
}

/// `fuse_attr`: file attributes as the kernel reads them
#[derive(Clone, Copy, Debug, PartialEq, Eq, Structural)]
pub struct FuseAttr {
    pub ino: u64,
    pub size: u64,
    pub blocks: u64,
    pub atime: i64,
    pub mtime: i64,
    pub ctime: i64,
    pub atimensec: u32,
    pub mtimensec: u32,
    pub ctimensec: u32,
    pub mode: u32,
    pub nlink: u32,
    pub uid: u32,
    pub gid: u32,
    pub rdev: u32,
    pub blksize: u32,
    pub padding: u32,
}

impl FuseAttr {
    /// The wire bytes of the attributes.
    pub open spec fn spec_bytes(self) -> Seq<u8> {
        le_u64(self.ino) + le_u64(self.size) + le_u64(self.blocks) + le_i64(self.atime) + le_i64(
            self.mtime,
        ) + le_i64(self.ctime) + le_u32(self.atimensec) + le_u32(self.mtimensec) + le_u32(
            self.ctimensec,
        ) + le_u32(self.mode) + le_u32(self.nlink) + le_u32(self.uid) + le_u32(self.gid) + le_u32(
            self.rdev,
        ) + le_u32(self.blksize) + le_u32(self.padding)
    }

    /// Append the wire bytes of the attributes.
    pub fn encode_into(&self, out: &mut Vec<u8>)
        ensures
            final(out)@ == old(out)@ + self.spec_bytes(),
    {
        push_u64(out, self.ino);
        push_u64(out, self.size);
        push_u64(out, self.blocks);
        push_i64(out, self.atime);
        push_i64(out, self.mtime);
        push_i64(out, self.ctime);
        push_u32(out, self.atimensec);
        push_u32(out, self.mtimensec);
        push_u32(out, self.ctimensec);
        push_u32(out, self.mode);
        push_u32(out, self.nlink);
        push_u32(out, self.uid);
        push_u32(out, self.gid);
        push_u32(out, self.rdev);
        push_u32(out, self.blksize);
        push_u32(out, self.padding);
        assert(final(out)@ =~= old(out)@ + self.spec_bytes());
    }
}

/// `fuse_entry_out`: a looked-up or created entry
#[derive(Clone, Copy, Debug, PartialEq, Eq, Structural)]
pub struct FuseEntryOut {
    pub nodeid: u64,
    pub generation: u64,
    pub entry_valid: u64,
    pub attr_valid: u64,
    pub entry_valid_nsec: u32,
    pub attr_valid_nsec: u32,
    pub attr: FuseAttr,
}

impl FuseEntryOut {
    /// The wire bytes of the entry.
    pub open spec fn spec_bytes(self) -> Seq<u8> {
        le_u64(self.nodeid) + le_u64(self.generation) + le_u64(self.entry_valid) + le_u64(
            self.attr_valid,
        ) + le_u32(self.entry_valid_nsec) + le_u32(self.attr_valid_nsec) + self.attr.spec_bytes()
    }

    /// Append the wire bytes of the entry.
    pub fn encode_into(&self, out: &mut Vec<u8>)
        ensures
            final(out)@ == old(out)@ + self.spec_bytes(),
    {
        push_u64(out, self.nodeid);
        push_u64(out, self.generation);
        push_u64(out, self.entry_valid);
        push_u64(out, self.attr_valid);
        push_u32(out, self.entry_valid_nsec);
        push_u32(out, self.attr_valid_nsec);
        self.attr.encode_into(out);
        assert(final(out)@ =~= old(out)@ + self.spec_bytes());
    }
}

/// `fuse_dirent`: the header of one directory entry, followed by its name
#[derive(Clone, Copy, Debug, PartialEq, Eq, Structural)]
pub struct FuseDirent {
    pub ino: u64,
    pub off: i64,
    pub namelen: u32,
    pub typ: u32,
}

impl FuseDirent {
    /// The wire bytes of the entry header.
    pub open spec fn spec_bytes(self) -> Seq<u8> {
        le_u64(self.ino) + le_i64(self.off) + le_u32(self.namelen) + le_u32(self.typ)
    }

    /// Append the wire bytes of the entry header.
    pub fn encode_into(&self, out: &mut Vec<u8>)
        ensures
            final(out)@ == old(out)@ + self.spec_bytes(),
    {
        push_u64(out, self.ino);
        push_i64(out, self.off);
        push_u32(out, self.namelen);
        push_u32(out, self.typ);
        assert(final(out)@ =~= old(out)@ + self.spec_bytes());
    }

    /// The wire bytes of the entry header, in a new buffer.
    pub fn to_bytes(&self) -> (r: Vec<u8>)
        ensures
            r@ == self.spec_bytes(),
            r@.len() == DIRENT_SIZE,
    {
        let mut out: Vec<u8> = Vec::new();
        self.encode_into(&mut out);
        assert(out@ =~= self.spec_bytes());
        out
    }
}

/// `fuse_direntplus`: a directory entry together with its looked-up attributes
#[derive(Clone, Copy, Debug, PartialEq, Eq, Structural)]
pub struct FuseDirentPlus {
    pub entry_out: FuseEntryOut,
    pub dirent: FuseDirent,
}

impl FuseDirentPlus {
    /// The wire bytes of the entry header.
    pub open spec fn spec_bytes(self) -> Seq<u8> {
        self.entry_out.spec_bytes() + self.dirent.spec_bytes()
    }

    /// The wire bytes of the entry header, in a new buffer.
    pub fn to_bytes(&self) -> (r: Vec<u8>)
        ensures
            r@ == self.spec_bytes(),
            r@.len() == DIRENTPLUS_SIZE,
    {
        let mut out: Vec<u8> = Vec::new();
        self.entry_out.encode_into(&mut out);
        self.dirent.encode_into(&mut out);
        assert(out@ =~= self.spec_bytes());
        out
    }
}

/// `fuse_init_out`: the answer to the init handshake
#[derive(Clone, Copy, Debug)]
pub struct FuseInitOut {
    pub major: u32,
    pub minor: u32,
    pub max_readahead: u32,
    pub flags: u32,
    pub max_background: u16,
    pub congestion_threshold: u16,
    pub max_write: u32,
    pub time_gran: u32,
    pub max_pages: u16,
    pub unused2: u16,
    pub flags2: u32,
    pub max_stack_depth: u32,
    pub reserved: [u32; 6],
}

impl FuseInitOut {
    /// The wire bytes of the init reply.
    pub open spec fn spec_bytes(self) -> Seq<u8> {
        le_u32(self.major) + le_u32(self.minor) + le_u32(self.max_readahead) + le_u32(self.flags)
            + le_u16(self.max_background) + le_u16(self.congestion_threshold) + le_u32(
            self.max_write,
        ) + le_u32(self.time_gran) + le_u16(self.max_pages) + le_u16(self.unused2) + le_u32(
            self.flags2,
        ) + le_u32(self.max_stack_depth) + le_u32(self.reserved[0]) + le_u32(self.reserved[1])
            + le_u32(self.reserved[2]) + le_u32(self.reserved[3]) + le_u32(self.reserved[4])
            + le_u32(self.reserved[5])
    }

    /// Append the wire bytes of the init reply.
    pub fn encode_into(&self, out: &mut Vec<u8>)
        ensures
            final(out)@ == old(out)@ + self.spec_bytes(),
    {
        push_u32(out, self.major);
        push_u32(out, self.minor);
        push_u32(out, self.max_readahead);
        push_u32(out, self.flags);
        push_u16(out, self.max_background);
        push_u16(out, self.congestion_threshold);
        push_u32(out, self.max_write);
        push_u32(out, self.time_gran);
        push_u16(out, self.max_pages);
        push_u16(out, self.unused2);
        push_u32(out, self.flags2);
        push_u32(out, self.max_stack_depth);
        push_u32(out, self.reserved[0]);
        push_u32(out, self.reserved[1]);
        push_u32(out, self.reserved[2]);
        push_u32(out, self.reserved[3]);
        push_u32(out, self.reserved[4]);
        push_u32(out, self.reserved[5]);
        assert(final(out)@ =~= old(out)@ + self.spec_bytes());
    }
}

} // verus!
