use vstd::prelude::*;

use crate::dispatch::Route;

verus! {

/// How requests should be filtered based on the calling UID.
#[derive(Clone, Copy, Debug, PartialEq, Eq, Structural)]
pub enum SessionACL {
    /// Allow requests from any user. Corresponds to the `allow_other` mount option.
    All,
    /// Allow requests from root. Corresponds to the `allow_root` mount option.
    RootAndOwner,
    /// Allow requests from the owning UID. This is FUSE's default mode of operation.
    Owner,
}

impl Default for SessionACL {
    /// The default access policy: only the owner may use the filesystem.
    fn default() -> (r: SessionACL)
        ensures
            r == SessionACL::Owner,
    {
        SessionACL::Owner
    }
}

/// The style a filesystem is served in: answering through reply callbacks,
/// answering by returning, or answering from futures. The requests are the same
/// (each is handed to `crate::filesystem::Filesystem`); the style decides the loop a
/// session runs.
#[derive(Clone, Copy, Debug, PartialEq, Eq, Structural)]
pub enum FsApi {
    /// Answering through reply callbacks.
    Legacy,
    /// Answering by returning, in a blocking loop.
    Sync,
    /// Answering from futures, in an awaiting loop.
    Async,
}

/// A filesystem together with the style it is served in (see `FsApi`); a session
/// runs the loop that style needs.
#[derive(Debug)]
pub enum AnyFS<L, S, A> {
    /// A filesystem served in the callback style
    Legacy(L),
    /// A filesystem served in the returning (blocking) style
    Sync(S),
    /// A filesystem served in the awaiting style
    Async(A),
}

impl<L, S, A> AnyFS<L, S, A> {
    /// The style of the filesystem held, which decides the loop a session runs.
    pub fn api(&self) -> (r: FsApi)
        ensures
            r == (match self {
                AnyFS::Legacy(_) => FsApi::Legacy,
                AnyFS::Sync(_) => FsApi::Sync,
                AnyFS::Async(_) => FsApi::Async,
            }),
    {
        match self {
            AnyFS::Legacy(_) => FsApi::Legacy,
            AnyFS::Sync(_) => FsApi::Sync,
            AnyFS::Async(_) => FsApi::Async,
        }
    }
}

/// Mount options (see the mount(8) and fuse(8) manual pages)
#[derive(Debug, Clone, PartialEq, Eq)]
pub enum MountOption {
    /// Set the name of the source in mtab
    FSName(String),
    /// Set the filesystem subtype in mtab
    Subtype(String),
    /// Allows passing an option which is not otherwise supported in these enums
    CUSTOM(String),
    /// Allow all users to access files on this filesystem. By default access is
    /// restricted to the user who mounted it
    AllowOther,
    /// Allow the root user to access this filesystem, in addition to the user who
    /// mounted it
    AllowRoot,
    /// Automatically unmount when the mounting process exits
    AutoUnmount,
    /// Enable permission checking in the kernel
    DefaultPermissions,
    /// Enable special character and block devices
    Dev,
    /// Disable special character and block devices
    NoDev,
    /// Honor set-user-id and set-groupd-id bits on files
    Suid,
    /// Don't honor set-user-id and set-groupd-id bits on files
    NoSuid,
    /// Read-only filesystem
    RO,
    /// Read-write filesystem
    RW,
    /// Allow execution of binaries
    Exec,
    /// Don't allow execution of binaries
    NoExec,
    /// Support inode access time
    Atime,
    /// Don't update inode access time
    NoAtime,
    /// All modifications to directories will be done synchronously
    DirSync,
    /// All I/O will be done synchronously
    Sync,
    /// All I/O will be done asynchronously
    Async,
}

/// The access options a session's access policy is derived from.
#[derive(Clone, Copy, Debug, PartialEq, Eq, Structural)]
pub enum AccessOption {
    /// `MountOption::AllowOther`
    AllowOther,
    /// `MountOption::AllowRoot`
    AllowRoot,
    /// `MountOption::AutoUnmount`
    AutoUnmount,
}

/// Whether mount option `o` is the access option `a`.
pub open spec fn is_access_option(o: MountOption, a: AccessOption) -> bool {
    match a {
        AccessOption::AllowOther => o is AllowOther,
        AccessOption::AllowRoot => o is AllowRoot,
        AccessOption::AutoUnmount => o is AutoUnmount,
    }
}

/// Whether `options` hold the access option `a`.
pub open spec fn has_option(options: Seq<MountOption>, a: AccessOption) -> bool {
    exists|i: int| 0 <= i < options.len() && #[trigger] is_access_option(options[i], a)
}

/// Whether `options` hold the access option `a`.
pub fn contains_option(options: &[MountOption], a: AccessOption) -> (r: bool)
    ensures
        r == has_option(options@, a),
{
    let mut i: usize = 0;
    while i < options.len()
        invariant
            i <= options@.len(),
            forall|k: int| 0 <= k < i ==> !#[trigger] is_access_option(options@[k], a),
        decreases options@.len() - i,
    {
        let found = match a {
            AccessOption::AllowOther => matches!(options[i], MountOption::AllowOther),
            AccessOption::AllowRoot => matches!(options[i], MountOption::AllowRoot),
            AccessOption::AutoUnmount => matches!(options[i], MountOption::AutoUnmount),
        };
        if found {
            assert(is_access_option(options@[i as int], a));
            return true;
        }
        i = i + 1;
    }
    false
}

/// The access policy a mount with `options` gets: root and the owner under
/// `AllowRoot`, everyone under `AllowOther` (without `AllowRoot`), else the owner.
pub open spec fn spec_acl_for(options: Seq<MountOption>) -> SessionACL {
    if has_option(options, AccessOption::AllowRoot) {
        SessionACL::RootAndOwner
    } else if has_option(options, AccessOption::AllowOther) {
        SessionACL::All
    } else {
        SessionACL::Owner
    }
}

/// The access policy a mount with `options` gets.
pub fn acl_for(options: &[MountOption]) -> (r: SessionACL)
    ensures
        r == spec_acl_for(options@),
{
    if contains_option(options, AccessOption::AllowRoot) {
        SessionACL::RootAndOwner
    } else if contains_option(options, AccessOption::AllowOther) {
        SessionACL::All
    } else {
        SessionACL::Owner
    }
}

/// Whether mounting with `options` needs `AllowOther` added: `AutoUnmount` is only
/// handled by fusermount together with `AllowRoot` or `AllowOther`, so when neither
/// is given, `AllowOther` is added and the owner-only policy is enforced here instead.
pub open spec fn spec_needs_allow_other(options: Seq<MountOption>) -> bool {
    has_option(options, AccessOption::AutoUnmount) && !(has_option(options, AccessOption::AllowRoot)
        || has_option(options, AccessOption::AllowOther))
}

/// The options to mount with: `options`, with `AllowOther` added when
/// `spec_needs_allow_other` says so.
pub fn mount_options_for(options: &[MountOption]) -> (r: Vec<MountOption>)
    ensures
        r@.len() == options@.len() + (if spec_needs_allow_other(options@) { 1int } else { 0int }),
        forall|i: int| 0 <= i < options@.len() ==> cloned::<MountOption>(options@[i], #[trigger] r@[i]),
        spec_needs_allow_other(options@) ==> r@[options@.len() as int] is AllowOther,
{
    let needs = contains_option(options, AccessOption::AutoUnmount) && !(contains_option(
        options,
        AccessOption::AllowRoot,
    ) || contains_option(options, AccessOption::AllowOther));
    let mut out = crate::container::clone_items(options);
    if needs {
        out.push(MountOption::AllowOther);
    }
    out
}

/// Mounting with `AutoUnmount` alone adds `AllowOther` for fusermount's sake, but the
/// access policy stays the owner's: it is derived from the options as given.
pub proof fn law_auto_unmount_keeps_owner_policy(options: Seq<MountOption>)
    requires
        spec_needs_allow_other(options),
    ensures
        spec_acl_for(options) == SessionACL::Owner,
{
}

/// Protocol state of a session, as the request dispatcher sees it.
#[derive(Clone, Copy, Debug, PartialEq, Eq, Structural)]
pub struct SessionState {
    /// FUSE protocol major version announced by the kernel
    pub proto_major: u32,
    /// FUSE protocol minor version announced by the kernel
    pub proto_minor: u32,
    /// True once the init operation was answered successfully
    pub initialized: bool,
    /// True once the destroy operation was handled
    pub destroyed: bool,
}

impl SessionState {
    /// The state of a fresh session: no protocol version known, not initialized,
    /// not destroyed.
    pub fn new() -> (r: SessionState)
        ensures
            r == (SessionState { proto_major: 0, proto_minor: 0, initialized: false, destroyed: false }),
    {
        SessionState { proto_major: 0, proto_minor: 0, initialized: false, destroyed: false }
    }

    /// Whether ending the session still has to tell the filesystem to tear down: only
    /// when no destroy request was handled.
    pub fn needs_destroy(&self) -> (r: bool)
        ensures
            r == !self.destroyed,
    {
        !self.destroyed
    }

    /// The state after the dispatcher carried out `route`; `filesystem_accepted` is
    /// what the filesystem answered to an init handshake (it is read for no other route).
    pub open spec fn spec_after(self, route: Route, filesystem_accepted: bool) -> SessionState {
        match route {
            Route::Initialize { major, minor } => SessionState {
                proto_major: major,
                proto_minor: minor,
                initialized: self.initialized || filesystem_accepted,
                destroyed: self.destroyed,
            },
            Route::Destroy => SessionState { destroyed: true, ..self },
            _ => self,
        }
    }

    /// Move the state on after the dispatcher carried out `route`: the init handshake
    /// records the kernel's protocol version and, when the filesystem accepted the
    /// configuration, marks the session initialized; destroy marks it destroyed.
    pub fn apply(&mut self, route: &Route, filesystem_accepted: bool)
        ensures
            *final(self) == old(self).spec_after(*route, filesystem_accepted),
    {
        match route {
            Route::Initialize { major, minor } => {
                self.proto_major = *major;
                self.proto_minor = *minor;
                if filesystem_accepted {
                    self.initialized = true;
                }
            },
            Route::Destroy => {
                self.destroyed = true;
            },
            _ => {},
        }
    }
}


/// The access policy follows the mount options, whatever else they hold: allowing
/// root gives root and the owner access, allowing others (without root) gives
/// everyone access, and a mount allowing neither gives the owner alone access.
pub proof fn law_acl_follows_options(options: Seq<MountOption>)
    ensures
        spec_acl_for(options.push(MountOption::AllowRoot)) == SessionACL::RootAndOwner,
        !has_option(options, AccessOption::AllowRoot) ==> spec_acl_for(options.push(MountOption::AllowOther))
            == SessionACL::All,
        !has_option(options, AccessOption::AllowRoot) && !has_option(options, AccessOption::AllowOther)
            ==> spec_acl_for(options) == SessionACL::Owner,
{
    let r = options.push(MountOption::AllowRoot);
    assert(is_access_option(r[options.len() as int], AccessOption::AllowRoot));
    let o = options.push(MountOption::AllowOther);
    assert(is_access_option(o[options.len() as int], AccessOption::AllowOther));
    if !has_option(options, AccessOption::AllowRoot) {
        assert forall|i: int| 0 <= i < o.len() implies !#[trigger] is_access_option(o[i], AccessOption::AllowRoot) by {
            if i < options.len() {
                assert(o[i] == options[i]);
            }
        }
    }
}

} // verus!
