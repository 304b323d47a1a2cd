//! Filesystem operation request metadata, and the reading of a request's header.
//!
//! Every request from the kernel starts with a `fuse_in_header` (40 bytes,
//! little-endian): the total length, the opcode, the unique id, the node id, and the
//! uid, gid and pid of the caller. The opcode, and for a few operations the first
//! fields of the body, decide how the request is routed.

use vstd::prelude::*;

use crate::abi::{le_u32, le_u64, FUSE_INIT_EXT};
use crate::dispatch::OperationKind;

verus! {

/// Size of the header every request starts with (`fuse_in_header`)
pub const IN_HEADER_SIZE: usize = 40;

/// The ioctl flag of an unrestricted ioctl (`FUSE_IOCTL_UNRESTRICTED`)
pub const FUSE_IOCTL_UNRESTRICTED: u32 = 2;

/// Request metadata structure
#[derive(Copy, Clone, PartialEq, Eq, Structural, Debug)]
pub struct RequestMeta {
    /// The unique identifier of this request
    pub unique: u64,
    /// The uid of this request
    pub uid: u32,
    /// The gid of this request
    pub gid: u32,
    /// The pid of this request
    pub pid: u32,
}

/// The header of a request (`fuse_in_header`)
#[derive(Copy, Clone, PartialEq, Eq, Structural, Debug)]
pub struct InHeader {
    /// Total length of the request, header included
    pub len: u32,
    /// The operation requested
    pub opcode: u32,
    /// The unique identifier of this request
    pub unique: u64,
    /// The node the operation applies to
    pub nodeid: u64,
    /// The uid of the caller
    pub uid: u32,
    /// The gid of the caller
    pub gid: u32,
    /// The pid of the caller
    pub pid: u32,
}

/// The little-endian `u32` at `off` in `s`.
pub open spec fn spec_read_u32(s: Seq<u8>, off: int) -> u32 {
    (s[off] as u32) | ((s[off + 1] as u32) << 8u32) | ((s[off + 2] as u32) << 16u32) | ((s[off + 3] as u32) << 24u32)
}

/// The little-endian `u64` at `off` in `s`.
pub open spec fn spec_read_u64(s: Seq<u8>, off: int) -> u64 {
    (spec_read_u32(s, off) as u64) | ((spec_read_u32(s, off + 4) as u64) << 32u64)
}

/// Read the little-endian `u32` at `off`.
pub fn read_u32(data: &[u8], off: usize) -> (r: u32)
    requires
        off + 4 <= data@.len(),
    ensures
        r == spec_read_u32(data@, off as int),
{
    (data[off] as u32) | ((data[off + 1] as u32) << 8u32) | ((data[off + 2] as u32) << 16u32) | ((
    data[off + 3] as u32) << 24u32)
}

/// Read the little-endian `u64` at `off`.
pub fn read_u64(data: &[u8], off: usize) -> (r: u64)
    requires
        off + 8 <= data@.len(),
    ensures
        r == spec_read_u64(data@, off as int),
{
    let n = data.len();
    assert(off + 8 <= n);
    (read_u32(data, off) as u64) | ((read_u32(data, off + 4) as u64) << 32u64)
}

/// The header `data` starts with: `None` when `data` is shorter than a header or than
/// the length the header announces.
pub open spec fn spec_in_header(data: Seq<u8>) -> Option<InHeader> {
    if data.len() < IN_HEADER_SIZE {
        None
    } else {
        let h = InHeader {
            len: spec_read_u32(data, 0),
            opcode: spec_read_u32(data, 4),
            unique: spec_read_u64(data, 8),
            nodeid: spec_read_u64(data, 16),
            uid: spec_read_u32(data, 24),
            gid: spec_read_u32(data, 28),
            pid: spec_read_u32(data, 32),
        };
        if data.len() < h.len {
            None
        } else {
            Some(h)
        }
    }
}

/// Read the header of the request in `data`.
pub fn parse_in_header(data: &[u8]) -> (r: Option<InHeader>)
    ensures
        r == spec_in_header(data@),
{
    if data.len() < IN_HEADER_SIZE {
        return None;
    }
    let h = InHeader {
        len: read_u32(data, 0),
        opcode: read_u32(data, 4),
        unique: read_u64(data, 8),
        nodeid: read_u64(data, 16),
        uid: read_u32(data, 24),
        gid: read_u32(data, 28),
        pid: read_u32(data, 32),
    };
    if data.len() < h.len as usize {
        None
    } else {
        Some(h)
    }
}

impl RequestMeta {
    /// The metadata of the request with header `h`.
    pub fn from_header(h: &InHeader) -> (r: RequestMeta)
        ensures
            r == (RequestMeta { unique: h.unique, uid: h.uid, gid: h.gid, pid: h.pid }),
    {
        RequestMeta { unique: h.unique, uid: h.uid, gid: h.gid, pid: h.pid }
    }
}

/// The kind of the operation with `opcode` whose body (the bytes after the header) is
/// `body`: `None` for an unknown opcode, or for an init or ioctl request whose body is
/// too short for the fields routing reads (the protocol version; the ioctl flags).
pub open spec fn spec_operation_kind(opcode: u32, body: Seq<u8>) -> Option<OperationKind> {
    if opcode == 26 {
        if body.len() < 8 {
            None
        } else {
            Some(OperationKind::Init { major: spec_read_u32(body, 0), minor: spec_read_u32(body, 4) })
        }
    } else if opcode == 39 {
        if body.len() < 12 {
            None
        } else {
            Some(OperationKind::IoCtl { unrestricted: spec_read_u32(body, 8) & FUSE_IOCTL_UNRESTRICTED != 0 })
        }
    } else {
        match opcode {
            1 => Some(OperationKind::Lookup),
            2 => Some(OperationKind::Forget),
            3 => Some(OperationKind::GetAttr),
            4 => Some(OperationKind::SetAttr),
            5 => Some(OperationKind::ReadLink),
            6 => Some(OperationKind::SymLink),
            8 => Some(OperationKind::MkNod),
            9 => Some(OperationKind::MkDir),
            10 => Some(OperationKind::Unlink),
            11 => Some(OperationKind::RmDir),
            12 => Some(OperationKind::Rename),
            13 => Some(OperationKind::Link),
            14 => Some(OperationKind::Open),
            15 => Some(OperationKind::Read),
            16 => Some(OperationKind::Write),
            17 => Some(OperationKind::StatFs),
            18 => Some(OperationKind::Release),
            20 => Some(OperationKind::FSync),
            21 => Some(OperationKind::SetXAttr),
            22 => Some(OperationKind::GetXAttr),
            23 => Some(OperationKind::ListXAttr),
            24 => Some(OperationKind::RemoveXAttr),
            25 => Some(OperationKind::Flush),
            27 => Some(OperationKind::OpenDir),
            28 => Some(OperationKind::ReadDir),
            29 => Some(OperationKind::ReleaseDir),
            30 => Some(OperationKind::FSyncDir),
            31 => Some(OperationKind::GetLk),
            32 => Some(OperationKind::SetLk),
            33 => Some(OperationKind::SetLkW),
            34 => Some(OperationKind::Access),
            35 => Some(OperationKind::Create),
            36 => Some(OperationKind::Interrupt),
            37 => Some(OperationKind::BMap),
            38 => Some(OperationKind::Destroy),
            40 => Some(OperationKind::Poll),
            41 => Some(OperationKind::NotifyReply),
            42 => Some(OperationKind::BatchForget),
            43 => Some(OperationKind::FAllocate),
            44 => Some(OperationKind::ReadDirPlus),
            45 => Some(OperationKind::Rename2),
            46 => Some(OperationKind::Lseek),
            47 => Some(OperationKind::CopyFileRange),
            61 => Some(OperationKind::SetVolName),
            62 => Some(OperationKind::GetXTimes),
            63 => Some(OperationKind::Exchange),
            4096 => Some(OperationKind::CuseInit),
            _ => None,
        }
    }
}

/// The kind of the operation with `opcode` and `body`, as routing reads it.
pub fn operation_kind(opcode: u32, body: &[u8]) -> (r: Option<OperationKind>)
    ensures
        r == spec_operation_kind(opcode, body@),
{
    if opcode == 26 {
        if body.len() < 8 {
            None
        } else {
            Some(OperationKind::Init { major: read_u32(body, 0), minor: read_u32(body, 4) })
        }
    } else if opcode == 39 {
        if body.len() < 12 {
            None
        } else {
            Some(OperationKind::IoCtl { unrestricted: read_u32(body, 8) & FUSE_IOCTL_UNRESTRICTED != 0 })
        }
    } else {
        match opcode {
            1 => Some(OperationKind::Lookup),
            2 => Some(OperationKind::Forget),
            3 => Some(OperationKind::GetAttr),
            4 => Some(OperationKind::SetAttr),
            5 => Some(OperationKind::ReadLink),
            6 => Some(OperationKind::SymLink),
            8 => Some(OperationKind::MkNod),
            9 => Some(OperationKind::MkDir),
            10 => Some(OperationKind::Unlink),
            11 => Some(OperationKind::RmDir),
            12 => Some(OperationKind::Rename),
            13 => Some(OperationKind::Link),
            14 => Some(OperationKind::Open),
            15 => Some(OperationKind::Read),
            16 => Some(OperationKind::Write),
            17 => Some(OperationKind::StatFs),
            18 => Some(OperationKind::Release),
            20 => Some(OperationKind::FSync),
            21 => Some(OperationKind::SetXAttr),
            22 => Some(OperationKind::GetXAttr),
            23 => Some(OperationKind::ListXAttr),
            24 => Some(OperationKind::RemoveXAttr),
            25 => Some(OperationKind::Flush),
            27 => Some(OperationKind::OpenDir),
            28 => Some(OperationKind::ReadDir),
            29 => Some(OperationKind::ReleaseDir),
            30 => Some(OperationKind::FSyncDir),
            31 => Some(OperationKind::GetLk),
            32 => Some(OperationKind::SetLk),
            33 => Some(OperationKind::SetLkW),
            34 => Some(OperationKind::Access),
            35 => Some(OperationKind::Create),
            36 => Some(OperationKind::Interrupt),
            37 => Some(OperationKind::BMap),
            38 => Some(OperationKind::Destroy),
            40 => Some(OperationKind::Poll),
            41 => Some(OperationKind::NotifyReply),
            42 => Some(OperationKind::BatchForget),
            43 => Some(OperationKind::FAllocate),
            44 => Some(OperationKind::ReadDirPlus),
            45 => Some(OperationKind::Rename2),
            46 => Some(OperationKind::Lseek),
            47 => Some(OperationKind::CopyFileRange),
            61 => Some(OperationKind::SetVolName),
            62 => Some(OperationKind::GetXTimes),
            63 => Some(OperationKind::Exchange),
            4096 => Some(OperationKind::CuseInit),
            _ => None,
        }
    }
}

/// The metadata and the kind of operation of the request in `data`: `None` when its
/// header is malformed; the kind is `None` when the operation is unknown (or its body
/// too short for what routing reads).
pub fn parse_request(data: &[u8]) -> (r: Option<(RequestMeta, Option<OperationKind>)>)
    ensures
        r is Some <==> spec_in_header(data@) is Some,
        r matches Some((meta, kind)) ==> {
            let h = spec_in_header(data@)->0;
            &&& meta == (RequestMeta { unique: h.unique, uid: h.uid, gid: h.gid, pid: h.pid })
            &&& kind == spec_operation_kind(h.opcode, data@.subrange(IN_HEADER_SIZE as int, data@.len() as int))
        },
{
    match parse_in_header(data) {
        Some(h) => {
            let body = slice_from(data, IN_HEADER_SIZE);
            Some((RequestMeta::from_header(&h), operation_kind(h.opcode, body)))
        },
        None => None,
    }
}

/// The arguments of an init request that configure the session (`fuse_init_in`).
#[derive(Copy, Clone, PartialEq, Eq, Structural, Debug)]
pub struct InitIn {
    /// The kernel's protocol major version
    pub major: u32,
    /// The kernel's protocol minor version
    pub minor: u32,
    /// The largest readahead the kernel proposes
    pub max_readahead: u32,
    /// The capabilities the kernel supports; the upper 32 bits come from the second
    /// flags word, which is only there when the first announces `FUSE_INIT_EXT`
    pub capabilities: u64,
}

/// The init arguments in `body`: `None` when it is shorter than the four words that
/// are always there.
pub open spec fn spec_init_in(body: Seq<u8>) -> Option<InitIn> {
    if body.len() < 16 {
        None
    } else {
        let flags = spec_read_u32(body, 12);
        let capabilities: u64 = if body.len() >= 20 && (flags as u64) & FUSE_INIT_EXT != 0 {
            (flags as u64) | ((spec_read_u32(body, 16) as u64) << 32u64)
        } else {
            flags as u64
        };
        Some(InitIn {
            major: spec_read_u32(body, 0),
            minor: spec_read_u32(body, 4),
            max_readahead: spec_read_u32(body, 8),
            capabilities,
        })
    }
}

/// Read the init arguments of an init request's body.
pub fn parse_init_in(body: &[u8]) -> (r: Option<InitIn>)
    ensures
        r == spec_init_in(body@),
{
    if body.len() < 16 {
        return None;
    }
    let flags = read_u32(body, 12);
    let capabilities: u64 = if body.len() >= 20 && (flags as u64) & FUSE_INIT_EXT != 0 {
        (flags as u64) | ((read_u32(body, 16) as u64) << 32u64)
    } else {
        flags as u64
    };
    Some(InitIn {
        major: read_u32(body, 0),
        minor: read_u32(body, 4),
        max_readahead: read_u32(body, 8),
        capabilities,
    })
}

/// The bytes of `data` from `start` on.
fn slice_from(data: &[u8], start: usize) -> (r: &[u8])
    requires
        start <= data@.len(),
    ensures
        r@ == data@.subrange(start as int, data@.len() as int),
{
    vstd::slice::slice_subrange(data, start, data.len())
}

/// Reading a `u32` back from its little-endian bytes gives the `u32` written.
pub proof fn law_read_inverts_le_u32(x: u32)
    ensures
        spec_read_u32(le_u32(x), 0) == x,
{
    let s = le_u32(x);
    let b0 = s[0];
    let b1 = s[1];
    let b2 = s[2];
    let b3 = s[3];
    assert(b0 == (x & 0xff) as u8 && b1 == ((x >> 8u32) & 0xff) as u8 && b2 == ((x >> 16u32) & 0xff) as u8
        && b3 == ((x >> 24u32) & 0xff) as u8);
    assert((b0 as u32) | ((b1 as u32) << 8u32) | ((b2 as u32) << 16u32) | ((b3 as u32) << 24u32) == x)
        by (bit_vector)
        requires
            b0 == (x & 0xff) as u8,
            b1 == ((x >> 8u32) & 0xff) as u8,
            b2 == ((x >> 16u32) & 0xff) as u8,
            b3 == ((x >> 24u32) & 0xff) as u8,
    ;
}

/// Reading a `u64` back from its little-endian bytes gives the `u64` written.
pub proof fn law_read_inverts_le_u64(x: u64)
    ensures
        spec_read_u64(le_u64(x), 0) == x,
{
    let s = le_u64(x);
    let lo = (x & 0xffff_ffff) as u32;
    let hi = (x >> 32u64) as u32;
    assert(s.subrange(0, 4) =~= le_u32(lo)) by {
        assert(((lo & 0xff) as u8) == ((x & 0xff) as u8)) by (bit_vector)
            requires lo == (x & 0xffff_ffff) as u32;
        assert((((lo >> 8u32) & 0xff) as u8) == (((x >> 8u64) & 0xff) as u8)) by (bit_vector)
            requires lo == (x & 0xffff_ffff) as u32;
        assert((((lo >> 16u32) & 0xff) as u8) == (((x >> 16u64) & 0xff) as u8)) by (bit_vector)
            requires lo == (x & 0xffff_ffff) as u32;
        assert((((lo >> 24u32) & 0xff) as u8) == (((x >> 24u64) & 0xff) as u8)) by (bit_vector)
            requires lo == (x & 0xffff_ffff) as u32;
    }
    assert(s.subrange(4, 8) =~= le_u32(hi)) by {
        assert(((hi & 0xff) as u8) == (((x >> 32u64) & 0xff) as u8)) by (bit_vector)
            requires hi == (x >> 32u64) as u32;
        assert((((hi >> 8u32) & 0xff) as u8) == (((x >> 40u64) & 0xff) as u8)) by (bit_vector)
            requires hi == (x >> 32u64) as u32;
        assert((((hi >> 16u32) & 0xff) as u8) == (((x >> 48u64) & 0xff) as u8)) by (bit_vector)
            requires hi == (x >> 32u64) as u32;
        assert((((hi >> 24u32) & 0xff) as u8) == (((x >> 56u64) & 0xff) as u8)) by (bit_vector)
            requires hi == (x >> 32u64) as u32;
    }
    law_read_inverts_le_u32(lo);
    law_read_inverts_le_u32(hi);
    assert(spec_read_u32(s, 0) == spec_read_u32(le_u32(lo), 0));
    assert(spec_read_u32(s, 4) == spec_read_u32(le_u32(hi), 0));
    assert(((lo as u64) | ((hi as u64) << 32u64)) == x) by (bit_vector)
        requires
            lo == (x & 0xffff_ffff) as u32,
            hi == (x >> 32u64) as u32,
    ;
}


/// Reading a `u32` looks at its four bytes only: two sequences that agree on them
/// read the same.
pub proof fn law_read_u32_reads_its_bytes(s: Seq<u8>, off: int, t: Seq<u8>, toff: int)
    requires
        0 <= off,
        off + 4 <= s.len(),
        0 <= toff,
        toff + 4 <= t.len(),
        s[off] == t[toff],
        s[off + 1] == t[toff + 1],
        s[off + 2] == t[toff + 2],
        s[off + 3] == t[toff + 3],
    ensures
        spec_read_u32(s, off) == spec_read_u32(t, toff),
{
}

/// Where the four bytes at `off` of `s` are the little-endian bytes of `x`, the `u32`
/// read there is `x`.
pub proof fn law_read_u32_at(s: Seq<u8>, off: int, x: u32)
    requires
        0 <= off,
        off + 4 <= s.len(),
        s.subrange(off, off + 4) == le_u32(x),
    ensures
        spec_read_u32(s, off) == x,
{
    let t = le_u32(x);
    let w = s.subrange(off, off + 4);
    assert(w[0] == s[off] && w[1] == s[off + 1] && w[2] == s[off + 2] && w[3] == s[off + 3]);
    law_read_u32_reads_its_bytes(s, off, t, 0);
    law_read_inverts_le_u32(x);
}

/// Where the eight bytes at `off` of `s` are the little-endian bytes of `x`, the
/// `u64` read there is `x`.
pub proof fn law_read_u64_at(s: Seq<u8>, off: int, x: u64)
    requires
        0 <= off,
        off + 8 <= s.len(),
        s.subrange(off, off + 8) == le_u64(x),
    ensures
        spec_read_u64(s, off) == x,
{
    let t = le_u64(x);
    let w = s.subrange(off, off + 8);
    assert(w[0] == s[off] && w[1] == s[off + 1] && w[2] == s[off + 2] && w[3] == s[off + 3]);
    assert(w[4] == s[off + 4] && w[5] == s[off + 5] && w[6] == s[off + 6] && w[7] == s[off + 7]);
    law_read_u32_reads_its_bytes(s, off, t, 0);
    law_read_u32_reads_its_bytes(s, off + 4, t, 4);
    law_read_inverts_le_u64(x);
}


/// Reading inside the tail of a sequence reads the tail: the `u32` at `pre.len() + k`
/// of `pre + s` is the `u32` at `k` of `s`.
pub proof fn law_read_u32_in_tail(pre: Seq<u8>, s: Seq<u8>, k: int)
    requires
        0 <= k,
        k + 4 <= s.len(),
    ensures
        spec_read_u32(pre + s, pre.len() + k) == spec_read_u32(s, k),
{
    let t = pre + s;
    let o = pre.len() + k;
    assert(t[o] == s[k] && t[o + 1] == s[k + 1] && t[o + 2] == s[k + 2] && t[o + 3] == s[k + 3]);
    law_read_u32_reads_its_bytes(t, o, s, k);
}

/// Reading inside the tail of a sequence reads the tail: the `u64` at `pre.len() + k`
/// of `pre + s` is the `u64` at `k` of `s`.
pub proof fn law_read_u64_in_tail(pre: Seq<u8>, s: Seq<u8>, k: int)
    requires
        0 <= k,
        k + 8 <= s.len(),
    ensures
        spec_read_u64(pre + s, pre.len() + k) == spec_read_u64(s, k),
{
    law_read_u32_in_tail(pre, s, k);
    law_read_u32_in_tail(pre, s, k + 4);
}


/// A request header is read from the kernel's `fuse_in_header`: the length at 0, the
/// opcode at 4, the unique id at 8, the node id at 16, then the uid, gid and pid at 24,
/// 28 and 32. It is read exactly when the data holds a whole header and the length it
/// announces.
pub proof fn law_in_header_layout(data: Seq<u8>)
    ensures
        spec_in_header(data) is Some <==> data.len() >= 40 && data.len() >= spec_read_u32(data, 0),
        spec_in_header(data) matches Some(h) ==> {
            &&& h.len == spec_read_u32(data, 0)
            &&& h.opcode == spec_read_u32(data, 4)
            &&& h.unique == spec_read_u64(data, 8)
            &&& h.nodeid == spec_read_u64(data, 16)
            &&& h.uid == spec_read_u32(data, 24)
            &&& h.gid == spec_read_u32(data, 28)
            &&& h.pid == spec_read_u32(data, 32)
        },
{
}

/// The init arguments are read from the kernel's `fuse_init_in`: the major and minor
/// version at 0 and 4, the readahead at 8, and the flags at 12; the capabilities'
/// low 32 bits are those flags, and their high 32 bits the second flags word at 16
/// when the flags announce it (`FUSE_INIT_EXT`) and it is there, else zero.
pub proof fn law_init_in_layout(body: Seq<u8>)
    ensures
        spec_init_in(body) is Some <==> body.len() >= 16,
        spec_init_in(body) matches Some(args) ==> {
            &&& args.major == spec_read_u32(body, 0)
            &&& args.minor == spec_read_u32(body, 4)
            &&& args.max_readahead == spec_read_u32(body, 8)
            &&& args.capabilities & 0xffff_ffff == spec_read_u32(body, 12) as u64
            &&& args.capabilities >> 32u64 == if body.len() >= 20 && (spec_read_u32(body, 12) as u64)
                & FUSE_INIT_EXT != 0 {
                spec_read_u32(body, 16) as u64
            } else {
                0u64
            }
        },
{
    if body.len() >= 16 {
        let lo = spec_read_u32(body, 12);
        let hi = spec_read_u32(body, 16);
        let both = (lo as u64) | ((hi as u64) << 32u64);
        let one = lo as u64;
        assert(both & 0xffff_ffff == lo as u64 && both >> 32u64 == hi as u64) by (bit_vector)
            requires
                both == (lo as u64) | ((hi as u64) << 32u64),
        ;
        assert(one & 0xffff_ffff == lo as u64 && one >> 32u64 == 0) by (bit_vector)
            requires
                one == lo as u64,
        ;
    }
}

/// Each opcode of the FUSE protocol names its operation: 1 lookup, 2 forget, 3
/// getattr, 4 setattr, 5 readlink, 6 symlink, 8 mknod, 9 mkdir, 10 unlink, 11 rmdir,
/// 12 rename, 13 link, 14 open, 15 read, 16 write, 17 statfs, 18 release, 20 fsync,
/// 21 setxattr, 22 getxattr, 23 listxattr, 24 removexattr, 25 flush, 26 init, 27
/// opendir, 28 readdir, 29 releasedir, 30 fsyncdir, 31 getlk, 32 setlk, 33 setlkw, 34
/// access, 35 create, 36 interrupt, 37 bmap, 38 destroy, 39 ioctl, 40 poll, 41
/// notify reply, 42 batch forget, 43 fallocate, 44 readdirplus, 45 rename2, 46 lseek,
/// 47 copy_file_range (and 61 to 63 the macOS operations); the version of an init is
/// read from the start of its body, and an ioctl is unrestricted when its flags at 8
/// have `FUSE_IOCTL_UNRESTRICTED`.
pub proof fn law_opcode_numbers(body: Seq<u8>)
    ensures
        spec_operation_kind(1, body) == Some(OperationKind::Lookup),
        spec_operation_kind(2, body) == Some(OperationKind::Forget),
        spec_operation_kind(3, body) == Some(OperationKind::GetAttr),
        spec_operation_kind(4, body) == Some(OperationKind::SetAttr),
        spec_operation_kind(5, body) == Some(OperationKind::ReadLink),
        spec_operation_kind(6, body) == Some(OperationKind::SymLink),
        spec_operation_kind(7, body) is None,
        spec_operation_kind(8, body) == Some(OperationKind::MkNod),
        spec_operation_kind(9, body) == Some(OperationKind::MkDir),
        spec_operation_kind(10, body) == Some(OperationKind::Unlink),
        spec_operation_kind(11, body) == Some(OperationKind::RmDir),
        spec_operation_kind(12, body) == Some(OperationKind::Rename),
        spec_operation_kind(13, body) == Some(OperationKind::Link),
        spec_operation_kind(14, body) == Some(OperationKind::Open),
        spec_operation_kind(15, body) == Some(OperationKind::Read),
        spec_operation_kind(16, body) == Some(OperationKind::Write),
        spec_operation_kind(17, body) == Some(OperationKind::StatFs),
        spec_operation_kind(18, body) == Some(OperationKind::Release),
        spec_operation_kind(19, body) is None,
        spec_operation_kind(20, body) == Some(OperationKind::FSync),
        spec_operation_kind(21, body) == Some(OperationKind::SetXAttr),
        spec_operation_kind(22, body) == Some(OperationKind::GetXAttr),
        spec_operation_kind(23, body) == Some(OperationKind::ListXAttr),
        spec_operation_kind(24, body) == Some(OperationKind::RemoveXAttr),
        spec_operation_kind(25, body) == Some(OperationKind::Flush),
        body.len() >= 8 ==> spec_operation_kind(26, body) == Some(
            OperationKind::Init { major: spec_read_u32(body, 0), minor: spec_read_u32(body, 4) },
        ),
        spec_operation_kind(27, body) == Some(OperationKind::OpenDir),
        spec_operation_kind(28, body) == Some(OperationKind::ReadDir),
        spec_operation_kind(29, body) == Some(OperationKind::ReleaseDir),
        spec_operation_kind(30, body) == Some(OperationKind::FSyncDir),
        spec_operation_kind(31, body) == Some(OperationKind::GetLk),
        spec_operation_kind(32, body) == Some(OperationKind::SetLk),
        spec_operation_kind(33, body) == Some(OperationKind::SetLkW),
        spec_operation_kind(34, body) == Some(OperationKind::Access),
        spec_operation_kind(35, body) == Some(OperationKind::Create),
        spec_operation_kind(36, body) == Some(OperationKind::Interrupt),
        spec_operation_kind(37, body) == Some(OperationKind::BMap),
        spec_operation_kind(38, body) == Some(OperationKind::Destroy),
        body.len() >= 12 ==> spec_operation_kind(39, body) == Some(
            OperationKind::IoCtl { unrestricted: spec_read_u32(body, 8) & FUSE_IOCTL_UNRESTRICTED != 0 },
        ),
        spec_operation_kind(40, body) == Some(OperationKind::Poll),
        spec_operation_kind(41, body) == Some(OperationKind::NotifyReply),
        spec_operation_kind(42, body) == Some(OperationKind::BatchForget),
        spec_operation_kind(43, body) == Some(OperationKind::FAllocate),
        spec_operation_kind(44, body) == Some(OperationKind::ReadDirPlus),
        spec_operation_kind(45, body) == Some(OperationKind::Rename2),
        spec_operation_kind(46, body) == Some(OperationKind::Lseek),
        spec_operation_kind(47, body) == Some(OperationKind::CopyFileRange),
        spec_operation_kind(61, body) == Some(OperationKind::SetVolName),
        spec_operation_kind(62, body) == Some(OperationKind::GetXTimes),
        spec_operation_kind(63, body) == Some(OperationKind::Exchange),
{
}


/// Reading inside a prefix of a sequence reads the prefix: where `s` starts with
/// `pre`, the `u32` at `k` of `s` is the `u32` at `k` of `pre`.
pub proof fn law_read_u32_reads_prefix(s: Seq<u8>, pre: Seq<u8>, k: int)
    requires
        0 <= k,
        k + 4 <= pre.len(),
        pre.len() <= s.len(),
        s.subrange(0, pre.len() as int) == pre,
    ensures
        spec_read_u32(s, k) == spec_read_u32(pre, k),
{
    let w = s.subrange(0, pre.len() as int);
    assert(w[k] == s[k] && w[k + 1] == s[k + 1] && w[k + 2] == s[k + 2] && w[k + 3] == s[k + 3]);
    law_read_u32_reads_its_bytes(s, k, pre, k);
}

} // verus!
