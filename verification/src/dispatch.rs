//! Request routing: which kernel requests reach the filesystem, which are refused,
//! and how the session's protocol state moves on.
//!
//! The dispatcher of a session runs these decisions for every request; performing the
//! chosen action (calling the filesystem, sending the reply) is left to the caller.

use vstd::prelude::*;

use crate::session::{SessionACL, SessionState};

verus! {

/// The kind of a request sent by the kernel, with the few fields that routing reads.
#[derive(Clone, Copy, Debug, PartialEq, Eq, Structural)]
pub enum OperationKind {
    /// Protocol handshake, with the kernel's protocol version
    Init { major: u32, minor: u32 },
    Destroy,
    Interrupt,
    Lookup,
    Forget,
    BatchForget,
    GetAttr,
    SetAttr,
    ReadLink,
    MkNod,
    MkDir,
    Unlink,
    RmDir,
    SymLink,
    Rename,
    Link,
    Open,
    Read,
    Write,
    Flush,
    Release,
    FSync,
    OpenDir,
    ReadDir,
    ReleaseDir,
    FSyncDir,
    StatFs,
    SetXAttr,
    GetXAttr,
    ListXAttr,
    RemoveXAttr,
    Access,
    Create,
    GetLk,
    SetLk,
    SetLkW,
    BMap,
    /// An ioctl; `unrestricted` ioctls are not supported
    IoCtl { unrestricted: bool },
    Poll,
    NotifyReply,
    FAllocate,
    ReadDirPlus,
    Rename2,
    Lseek,
    CopyFileRange,
    SetVolName,
    GetXTimes,
    Exchange,
    CuseInit,
}

/// The error a refused request is answered with.
#[derive(Clone, Copy, Debug, PartialEq, Eq, Structural)]
pub enum Refusal {
    /// `ENOSYS`: the operation is not implemented
    NotImplemented,
    /// `EACCES`: the calling user may not use this filesystem
    AccessDenied,
    /// `EPROTO`: the kernel speaks a protocol version older than 7.6
    ProtocolTooOld,
    /// `EIO`: the session is not initialized, or already destroyed
    InvalidState,
}

/// The constant `libc::ENOSYS`, which libc defines as 38 on Linux; the value stated here
/// holds for Linux targets only.
#[verifier::external_body]
pub(crate) fn enosys() -> (r: i32)
    ensures
        r == 38,
{
    libc::ENOSYS
}

/// The constant `libc::EACCES`, which libc defines as 13 on Linux; the value stated here
/// holds for Linux targets only.
#[verifier::external_body]
fn eacces() -> (r: i32)
    ensures
        r == 13,
{
    libc::EACCES
}

/// The constant `libc::EPROTO`, which libc defines as 71 on Linux; the value stated here
/// holds for Linux targets only.
#[verifier::external_body]
fn eproto() -> (r: i32)
    ensures
        r == 71,
{
    libc::EPROTO
}

/// The constant `libc::EIO`, which libc defines as 5 on Linux; the value stated here
/// holds for Linux targets only.
#[verifier::external_body]
pub(crate) fn eio() -> (r: i32)
    ensures
        r == 5,
{
    libc::EIO
}

impl Refusal {
    /// The error number a refusal is answered with.
    pub open spec fn spec_errno(self) -> i32 {
        match self {
            Refusal::NotImplemented => 38,
            Refusal::AccessDenied => 13,
            Refusal::ProtocolTooOld => 71,
            Refusal::InvalidState => 5,
        }
    }

    /// The error number a refusal is answered with.
    pub fn errno(&self) -> (r: i32)
        ensures
            r == self.spec_errno(),
    {
        match self {
            Refusal::NotImplemented => enosys(),
            Refusal::AccessDenied => eacces(),
            Refusal::ProtocolTooOld => eproto(),
            Refusal::InvalidState => eio(),
        }
    }
}

/// What the dispatcher does with one request.
#[derive(Clone, Copy, Debug, PartialEq, Eq, Structural)]
pub enum Route {
    /// Answer with an error without consulting the filesystem.
    Refuse(Refusal),
    /// Run the init handshake: record the protocol version, ask the filesystem to
    /// initialize, and on success mark the session initialized.
    Initialize { major: u32, minor: u32 },
    /// Tell the filesystem to tear down, mark the session destroyed, answer ok.
    Destroy,
    /// Call the filesystem; the kernel expects no reply.
    CallWithoutReply,
    /// Call the filesystem with a reply callback. With `attr_ttl_override` the
    /// attribute time-to-live in the reply is forced to zero.
    Call { attr_ttl_override: bool },
}

/// What the dispatcher does with a request whose kind could be read (`Some`) or not:
/// an unknown operation is answered `ENOSYS` before anything else is looked at.
pub open spec fn spec_route_request(
    state: SessionState,
    acl: SessionACL,
    session_owner: u32,
    uid: u32,
    op: Option<OperationKind>,
) -> Route {
    match op {
        Some(op) => spec_route(state, acl, session_owner, uid, op),
        None => Route::Refuse(Refusal::NotImplemented),
    }
}

/// Operations the kernel may issue without a uid set; they are served whatever the
/// access policy.
pub open spec fn spec_kernel_internal(op: OperationKind) -> bool {
    match op {
        OperationKind::Init { .. }
        | OperationKind::Destroy
        | OperationKind::Read
        | OperationKind::ReadDir
        | OperationKind::Forget
        | OperationKind::Write
        | OperationKind::FSync
        | OperationKind::FSyncDir
        | OperationKind::Release
        | OperationKind::ReleaseDir
        | OperationKind::BatchForget
        | OperationKind::ReadDirPlus => true,
        _ => false,
    }
}

/// The calling user is outside what the access policy admits.
pub open spec fn spec_user_excluded(acl: SessionACL, session_owner: u32, uid: u32) -> bool {
    match acl {
        SessionACL::All => false,
        SessionACL::RootAndOwner => uid != session_owner && uid != 0,
        SessionACL::Owner => uid != session_owner,
    }
}

/// A request is refused for access when its user is excluded and the operation is
/// not one the kernel issues on its own.
pub open spec fn spec_access_denied(
    acl: SessionACL,
    session_owner: u32,
    uid: u32,
    op: OperationKind,
) -> bool {
    spec_user_excluded(acl, session_owner, uid) && !spec_kernel_internal(op)
}

/// Replies of these operations carry file attributes, whose caching is disabled
/// under the `allow_root` policy.
pub open spec fn spec_replies_with_attributes(op: OperationKind) -> bool {
    match op {
        OperationKind::Lookup
        | OperationKind::GetAttr
        | OperationKind::SetAttr
        | OperationKind::MkNod
        | OperationKind::MkDir
        | OperationKind::SymLink
        | OperationKind::Link
        | OperationKind::ReadDirPlus => true,
        _ => false,
    }
}

/// The protocol version `(major, minor)` is older than 7.6.
pub open spec fn spec_version_too_old(major: u32, minor: u32) -> bool {
    major < 7 || (major == 7 && minor < 6)
}

/// The route of a request that passed the access check.
pub open spec fn spec_route_admitted(state: SessionState, acl: SessionACL, op: OperationKind) -> Route {
    match op {
        OperationKind::Init { major, minor } => if spec_version_too_old(major, minor) {
            Route::Refuse(Refusal::ProtocolTooOld)
        } else {
            Route::Initialize { major, minor }
        },
        _ => if !state.initialized {
            Route::Refuse(Refusal::InvalidState)
        } else {
            match op {
                OperationKind::Destroy => Route::Destroy,
                _ => if state.destroyed {
                    Route::Refuse(Refusal::InvalidState)
                } else {
                    match op {
                        OperationKind::Interrupt
                        | OperationKind::NotifyReply
                        | OperationKind::CuseInit => Route::Refuse(Refusal::NotImplemented),
                        OperationKind::IoCtl { unrestricted } => if unrestricted {
                            Route::Refuse(Refusal::NotImplemented)
                        } else {
                            Route::Call { attr_ttl_override: false }
                        },
                        OperationKind::Forget | OperationKind::BatchForget => Route::CallWithoutReply,
                        _ => Route::Call {
                            attr_ttl_override: acl == SessionACL::RootAndOwner
                                && spec_replies_with_attributes(op),
                        },
                    }
                },
            }
        },
    }
}

/// The route of any request.
pub open spec fn spec_route(
    state: SessionState,
    acl: SessionACL,
    session_owner: u32,
    uid: u32,
    op: OperationKind,
) -> Route {
    if spec_access_denied(acl, session_owner, uid, op) {
        Route::Refuse(Refusal::AccessDenied)
    } else {
        spec_route_admitted(state, acl, op)
    }
}

/// True for the operations the kernel issues without a uid set.
pub fn is_kernel_internal(op: &OperationKind) -> (r: bool)
    ensures
        r == spec_kernel_internal(*op),
{
    match op {
        OperationKind::Init { .. }
        | OperationKind::Destroy
        | OperationKind::Read
        | OperationKind::ReadDir
        | OperationKind::Forget
        | OperationKind::Write
        | OperationKind::FSync
        | OperationKind::FSyncDir
        | OperationKind::Release
        | OperationKind::ReleaseDir
        | OperationKind::BatchForget
        | OperationKind::ReadDirPlus => true,
        _ => false,
    }
}

/// Implementation of `allow_root`, and of the access check that `auto_unmount`
/// requires: true when the request must be answered with `EACCES`.
pub fn access_denied(acl: SessionACL, session_owner: u32, uid: u32, op: &OperationKind) -> (r: bool)
    ensures
        r == spec_access_denied(acl, session_owner, uid, *op),
{
    let excluded = match acl {
        SessionACL::All => false,
        SessionACL::RootAndOwner => uid != session_owner && uid != 0,
        SessionACL::Owner => uid != session_owner,
    };
    excluded && !is_kernel_internal(op)
}

/// True for the operations whose reply carries file attributes.
pub fn replies_with_attributes(op: &OperationKind) -> (r: bool)
    ensures
        r == spec_replies_with_attributes(*op),
{
    match op {
        OperationKind::Lookup
        | OperationKind::GetAttr
        | OperationKind::SetAttr
        | OperationKind::MkNod
        | OperationKind::MkDir
        | OperationKind::SymLink
        | OperationKind::Link
        | OperationKind::ReadDirPlus => true,
        _ => false,
    }
}

/// Decide what the dispatcher does with a request of kind `op` from user `uid`,
/// in a session in protocol state `state` with access policy `acl`.
pub fn route(
    state: &SessionState,
    acl: SessionACL,
    session_owner: u32,
    uid: u32,
    op: &OperationKind,
) -> (r: Route)
    ensures
        r == spec_route(*state, acl, session_owner, uid, *op),
{
    if access_denied(acl, session_owner, uid, op) {
        return Route::Refuse(Refusal::AccessDenied);
    }
    match op {
        OperationKind::Init { major, minor } => {
            if *major < 7 || (*major == 7 && *minor < 6) {
                Route::Refuse(Refusal::ProtocolTooOld)
            } else {
                Route::Initialize { major: *major, minor: *minor }
            }
        },
        _ => {
            if !state.initialized {
                Route::Refuse(Refusal::InvalidState)
            } else {
                match op {
                    OperationKind::Destroy => Route::Destroy,
                    _ => {
                        if state.destroyed {
                            Route::Refuse(Refusal::InvalidState)
                        } else {
                            match op {
                                OperationKind::Interrupt
                                | OperationKind::NotifyReply
                                | OperationKind::CuseInit => Route::Refuse(Refusal::NotImplemented),
                                OperationKind::IoCtl { unrestricted } => {
                                    if *unrestricted {
                                        Route::Refuse(Refusal::NotImplemented)
                                    } else {
                                        Route::Call { attr_ttl_override: false }
                                    }
                                },
                                OperationKind::Forget | OperationKind::BatchForget => {
                                    Route::CallWithoutReply
                                },
                                _ => {
                                    let root_and_owner = match acl {
                                        SessionACL::RootAndOwner => true,
                                        _ => false,
                                    };
                                    Route::Call {
                                        attr_ttl_override: root_and_owner
                                            && replies_with_attributes(op),
                                    }
                                },
                            }
                        }
                    },
                }
            }
        },
    }
}

/// Decide what the dispatcher does with a request whose kind was read as `op`.
pub fn route_request(
    state: &SessionState,
    acl: SessionACL,
    session_owner: u32,
    uid: u32,
    op: &Option<OperationKind>,
) -> (r: Route)
    ensures
        r == spec_route_request(*state, acl, session_owner, uid, *op),
{
    match op {
        Some(op) => route(state, acl, session_owner, uid, op),
        None => Route::Refuse(Refusal::NotImplemented),
    }
}

/// Before the init handshake succeeded, no request other than init reaches the
/// filesystem: every other request is refused.
pub proof fn law_nothing_served_before_init(
    state: SessionState,
    acl: SessionACL,
    session_owner: u32,
    uid: u32,
    op: OperationKind,
)
    requires
        !state.initialized,
        !(op is Init),
    ensures
        spec_route(state, acl, session_owner, uid, op) is Refuse,
{
}

/// After the session was destroyed, only init and destroy requests reach the
/// filesystem; every other request is refused.
pub proof fn law_nothing_served_after_destroy(
    state: SessionState,
    acl: SessionACL,
    session_owner: u32,
    uid: u32,
    op: OperationKind,
)
    requires
        state.destroyed,
        !(op is Init),
        !(op is Destroy),
    ensures
        spec_route(state, acl, session_owner, uid, op) is Refuse,
{
}

/// Under `allow_other` no request is refused for access.
pub proof fn law_allow_other_never_denies(session_owner: u32, uid: u32, op: OperationKind)
    ensures
        !spec_access_denied(SessionACL::All, session_owner, uid, op),
{
}

/// The owner of the session is never refused for access, under any policy.
pub proof fn law_owner_never_denied(acl: SessionACL, session_owner: u32, op: OperationKind)
    ensures
        !spec_access_denied(acl, session_owner, session_owner, op),
{
}

/// Under `allow_root`, root is never refused for access.
pub proof fn law_allow_root_admits_root(session_owner: u32, op: OperationKind)
    ensures
        !spec_access_denied(SessionACL::RootAndOwner, session_owner, 0, op),
{
}

/// Under the default policy, a user other than the owner is refused exactly the
/// operations the kernel does not issue on its own.
pub proof fn law_owner_policy_refuses_strangers(
    state: SessionState,
    session_owner: u32,
    uid: u32,
    op: OperationKind,
)
    requires
        uid != session_owner,
    ensures
        spec_route(state, SessionACL::Owner, session_owner, uid, op) == Route::Refuse(Refusal::AccessDenied)
            <==> !spec_kernel_internal(op),
{
}

/// The session's flags only move forward: once initialized or destroyed, it stays so,
/// whatever route is carried out next.
pub proof fn law_state_flags_are_monotonic(state: SessionState, r: Route, filesystem_accepted: bool)
    ensures
        state.initialized ==> state.spec_after(r, filesystem_accepted).initialized,
        state.destroyed ==> state.spec_after(r, filesystem_accepted).destroyed,
{
}

/// An accepted init handshake of an admitted kernel leaves the session initialized,
/// with the kernel's protocol version recorded.
pub proof fn law_init_handshake_initializes(
    state: SessionState,
    acl: SessionACL,
    session_owner: u32,
    uid: u32,
    major: u32,
    minor: u32,
)
    requires
        !spec_version_too_old(major, minor),
    ensures
        ({
            let r = spec_route(state, acl, session_owner, uid, OperationKind::Init { major, minor });
            let next = state.spec_after(r, true);
            &&& r == (Route::Initialize { major, minor })
            &&& next.initialized
            &&& next.proto_major == major
            &&& next.proto_minor == minor
        }),
{
}


/// Under `allow_root`, a request whose reply carries file attributes (lookup,
/// getattr, setattr, mknod, mkdir, symlink, link, readdirplus) that the access policy
/// admits in a running session goes to the filesystem with the attribute
/// time-to-live forced to zero, so the kernel does not cache the attributes; under
/// the other policies it goes with the filesystem's own time-to-live.
pub proof fn law_attribute_replies_uncached_under_allow_root(
    state: SessionState,
    acl: SessionACL,
    session_owner: u32,
    uid: u32,
    op: OperationKind,
)
    requires
        op == OperationKind::Lookup || op == OperationKind::GetAttr || op == OperationKind::SetAttr
            || op == OperationKind::MkNod || op == OperationKind::MkDir || op == OperationKind::SymLink
            || op == OperationKind::Link || op == OperationKind::ReadDirPlus,
        state.initialized,
        !state.destroyed,
        !spec_access_denied(acl, session_owner, uid, op),
    ensures
        spec_route_request(state, acl, session_owner, uid, Some(op)) == (Route::Call {
            attr_ttl_override: acl == SessionACL::RootAndOwner,
        }),
{
}

/// No other request has its attribute time-to-live forced to zero: whatever the
/// policy and state, a request that is not a lookup, getattr, setattr, mknod, mkdir,
/// symlink, link or readdirplus is never routed with the override.
pub proof fn law_only_attribute_replies_are_uncached(
    state: SessionState,
    acl: SessionACL,
    session_owner: u32,
    uid: u32,
    op: OperationKind,
)
    requires
        !(op == OperationKind::Lookup || op == OperationKind::GetAttr || op == OperationKind::SetAttr
            || op == OperationKind::MkNod || op == OperationKind::MkDir || op == OperationKind::SymLink
            || op == OperationKind::Link || op == OperationKind::ReadDirPlus),
    ensures
        spec_route_request(state, acl, session_owner, uid, Some(op)) != (Route::Call { attr_ttl_override: true }),
{
}


/// Each refusal is answered with its errno: an unsupported operation `ENOSYS` (38),
/// a user the policy excludes `EACCES` (13), a kernel too old `EPROTO` (71), and a
/// request out of the session's state `EIO` (5).
pub proof fn law_refusal_errnos()
    ensures
        Refusal::NotImplemented.spec_errno() == 38,
        Refusal::AccessDenied.spec_errno() == 13,
        Refusal::ProtocolTooOld.spec_errno() == 71,
        Refusal::InvalidState.spec_errno() == 5,
{
}

/// A request from a user the access policy excludes, for an operation the kernel does
/// not issue on its own, is refused for access before anything else is looked at.
pub proof fn law_access_checked_first(
    state: SessionState,
    acl: SessionACL,
    session_owner: u32,
    uid: u32,
    op: OperationKind,
)
    requires
        spec_user_excluded(acl, session_owner, uid),
        !spec_kernel_internal(op),
    ensures
        spec_route(state, acl, session_owner, uid, op) == Route::Refuse(Refusal::AccessDenied),
{
}

/// An admitted init from a kernel whose protocol is older than 7.6 is refused as too
/// old, whatever the session's state.
pub proof fn law_old_protocol_refused(
    state: SessionState,
    acl: SessionACL,
    session_owner: u32,
    uid: u32,
    major: u32,
    minor: u32,
)
    requires
        major < 7 || (major == 7 && minor < 6),
    ensures
        spec_route(state, acl, session_owner, uid, OperationKind::Init { major, minor }) == Route::Refuse(
            Refusal::ProtocolTooOld,
        ),
{
}

/// An admitted request other than init is refused as out of state before the session
/// is initialized, and (other than destroy) after it is destroyed.
pub proof fn law_out_of_state_refusal(
    state: SessionState,
    acl: SessionACL,
    session_owner: u32,
    uid: u32,
    op: OperationKind,
)
    requires
        !spec_access_denied(acl, session_owner, uid, op),
        !(op is Init),
        !state.initialized || (state.destroyed && !(op is Destroy)),
    ensures
        spec_route(state, acl, session_owner, uid, op) == Route::Refuse(Refusal::InvalidState),
{
}

/// In a running session an admitted destroy tears the filesystem down, forgets go to
/// the filesystem without a reply, interrupts, notify replies, CUSE inits and
/// unrestricted ioctls are refused as unsupported, and every other operation goes to
/// the filesystem with a reply.
pub proof fn law_running_session_routes(
    state: SessionState,
    acl: SessionACL,
    session_owner: u32,
    uid: u32,
    op: OperationKind,
)
    requires
        state.initialized,
        !state.destroyed,
        !spec_access_denied(acl, session_owner, uid, op),
        !(op is Init),
    ensures
        op is Destroy ==> spec_route(state, acl, session_owner, uid, op) == Route::Destroy,
        op is Forget || op is BatchForget ==> spec_route(state, acl, session_owner, uid, op)
            == Route::CallWithoutReply,
        op is Interrupt || op is NotifyReply || op is CuseInit || op == (OperationKind::IoCtl { unrestricted: true })
            ==> spec_route(state, acl, session_owner, uid, op) == Route::Refuse(Refusal::NotImplemented),
        !(op is Destroy || op is Forget || op is BatchForget || op is Interrupt || op is NotifyReply
            || op is CuseInit || op == (OperationKind::IoCtl { unrestricted: true }))
            ==> spec_route(state, acl, session_owner, uid, op) is Call,
{
}


/// The operations the kernel issues on its own, served whatever the policy, are init,
/// destroy, read, readdir, readdirplus, write, fsync, fsyncdir, release, releasedir,
/// forget and batch forget; and a policy excludes a user exactly when it is not the
/// owner and, under `allow_root`, not root, while `allow_other` excludes nobody.
pub proof fn law_access_policy(acl: SessionACL, session_owner: u32, uid: u32, op: OperationKind)
    ensures
        spec_kernel_internal(op) <==> (op is Init || op is Destroy || op is Read || op is ReadDir
            || op is ReadDirPlus || op is Write || op is FSync || op is FSyncDir || op is Release
            || op is ReleaseDir || op is Forget || op is BatchForget),
        spec_user_excluded(SessionACL::All, session_owner, uid) == false,
        spec_user_excluded(SessionACL::Owner, session_owner, uid) == (uid != session_owner),
        spec_user_excluded(SessionACL::RootAndOwner, session_owner, uid) == (uid != session_owner && uid != 0),
        spec_access_denied(acl, session_owner, uid, op) == (spec_user_excluded(acl, session_owner, uid)
            && !spec_kernel_internal(op)),
{
}

} // verus!
