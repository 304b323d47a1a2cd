use fuser::dispatch::{access_denied, is_kernel_internal, replies_with_attributes, route, route_request, OperationKind, Refusal, Route};
use fuser::session::{acl_for, contains_option, mount_options_for, AccessOption, AnyFS, FsApi, MountOption, SessionACL, SessionState};

fn ready() -> SessionState {
    SessionState { proto_major: 7, proto_minor: 31, initialized: true, destroyed: false }
}

#[test]
fn route_refuses_everything_but_init_before_init() {
    let s = SessionState::new();
    assert_eq!(route(&s, SessionACL::Owner, 1000, 1000, &OperationKind::Lookup), Route::Refuse(Refusal::InvalidState));
    assert_eq!(route(&s, SessionACL::Owner, 1000, 1000, &OperationKind::Destroy), Route::Refuse(Refusal::InvalidState));
    assert_eq!(
        route(&s, SessionACL::Owner, 1000, 1000, &OperationKind::Init { major: 7, minor: 31 }),
        Route::Initialize { major: 7, minor: 31 }
    );
}

#[test]
fn route_refuses_old_protocols() {
    let s = SessionState::new();
    assert_eq!(
        route(&s, SessionACL::Owner, 0, 0, &OperationKind::Init { major: 7, minor: 5 }),
        Route::Refuse(Refusal::ProtocolTooOld)
    );
    assert_eq!(
        route(&s, SessionACL::Owner, 0, 0, &OperationKind::Init { major: 6, minor: 40 }),
        Route::Refuse(Refusal::ProtocolTooOld)
    );
    assert_eq!(
        route(&s, SessionACL::Owner, 0, 0, &OperationKind::Init { major: 7, minor: 6 }),
        Route::Initialize { major: 7, minor: 6 }
    );
}

#[test]
fn route_serves_after_init_and_refuses_after_destroy() {
    let mut s = ready();
    assert_eq!(route(&s, SessionACL::Owner, 5, 5, &OperationKind::GetAttr), Route::Call { attr_ttl_override: false });
    assert_eq!(route(&s, SessionACL::Owner, 5, 5, &OperationKind::Forget), Route::CallWithoutReply);
    assert_eq!(route(&s, SessionACL::Owner, 5, 5, &OperationKind::Interrupt), Route::Refuse(Refusal::NotImplemented));
    assert_eq!(
        route(&s, SessionACL::Owner, 5, 5, &OperationKind::IoCtl { unrestricted: true }),
        Route::Refuse(Refusal::NotImplemented)
    );
    assert_eq!(route(&s, SessionACL::Owner, 5, 5, &OperationKind::Destroy), Route::Destroy);
    s.apply(&Route::Destroy, false);
    assert!(s.destroyed);
    assert!(!s.needs_destroy());
    assert_eq!(route(&s, SessionACL::Owner, 5, 5, &OperationKind::Read), Route::Refuse(Refusal::InvalidState));
}

#[test]
fn route_access_policies() {
    let s = ready();
    // Owner only: a stranger is refused, the kernel's own operations pass.
    assert_eq!(route(&s, SessionACL::Owner, 5, 6, &OperationKind::Lookup), Route::Refuse(Refusal::AccessDenied));
    assert_eq!(route(&s, SessionACL::Owner, 5, 6, &OperationKind::Read), Route::Call { attr_ttl_override: false });
    // Root and owner: root passes, with attribute caching disabled for attribute replies.
    assert_eq!(route(&s, SessionACL::RootAndOwner, 5, 0, &OperationKind::Lookup), Route::Call { attr_ttl_override: true });
    assert_eq!(route(&s, SessionACL::RootAndOwner, 5, 0, &OperationKind::Open), Route::Call { attr_ttl_override: false });
    assert_eq!(route(&s, SessionACL::RootAndOwner, 5, 6, &OperationKind::Lookup), Route::Refuse(Refusal::AccessDenied));
    // All: anyone passes.
    assert_eq!(route(&s, SessionACL::All, 5, 6, &OperationKind::Lookup), Route::Call { attr_ttl_override: false });
    assert!(access_denied(SessionACL::Owner, 1, 2, &OperationKind::MkDir));
    assert!(!access_denied(SessionACL::Owner, 1, 2, &OperationKind::Write));
    assert!(is_kernel_internal(&OperationKind::BatchForget));
    assert!(!is_kernel_internal(&OperationKind::Lookup));
    assert!(replies_with_attributes(&OperationKind::ReadDirPlus));
    assert!(!replies_with_attributes(&OperationKind::Read));
}

#[test]
fn init_handshake_moves_state() {
    let mut s = SessionState::new();
    s.apply(&Route::Initialize { major: 7, minor: 40 }, false);
    assert_eq!((s.proto_major, s.proto_minor, s.initialized), (7, 40, false));
    s.apply(&Route::Initialize { major: 7, minor: 40 }, true);
    assert!(s.initialized);
    assert!(s.needs_destroy());
}

#[test]
fn acl_from_mount_options() {
    assert_eq!(acl_for(&[]), SessionACL::Owner);
    assert_eq!(acl_for(&[MountOption::AllowOther]), SessionACL::All);
    assert_eq!(acl_for(&[MountOption::AllowOther, MountOption::AllowRoot]), SessionACL::RootAndOwner);
    assert_eq!(acl_for(&[MountOption::RO, MountOption::AutoUnmount]), SessionACL::Owner);
    assert_eq!(SessionACL::default(), SessionACL::Owner);
    assert!(contains_option(&[MountOption::FSName("x".to_string()), MountOption::AutoUnmount], AccessOption::AutoUnmount));
    assert!(!contains_option(&[MountOption::RO], AccessOption::AllowRoot));
}

#[test]
fn auto_unmount_alone_adds_allow_other() {
    let opts = vec![MountOption::FSName("hello".to_string()), MountOption::AutoUnmount];
    let effective = mount_options_for(&opts);
    assert_eq!(effective, vec![MountOption::FSName("hello".to_string()), MountOption::AutoUnmount, MountOption::AllowOther]);
    assert_eq!(acl_for(&opts), SessionACL::Owner);
    let with_root = vec![MountOption::AutoUnmount, MountOption::AllowRoot];
    assert_eq!(mount_options_for(&with_root), with_root);
    let plain = vec![MountOption::RO];
    assert_eq!(mount_options_for(&plain), plain);
}

#[test]
fn any_fs_api() {
    let l: AnyFS<u8, u16, u32> = AnyFS::Legacy(1);
    let s: AnyFS<u8, u16, u32> = AnyFS::Sync(2);
    let a: AnyFS<u8, u16, u32> = AnyFS::Async(3);
    assert_eq!(l.api(), FsApi::Legacy);
    assert_eq!(s.api(), FsApi::Sync);
    assert_eq!(a.api(), FsApi::Async);
}

#[test]
fn unknown_operations_are_not_implemented() {
    let s = ready();
    assert_eq!(route_request(&s, SessionACL::Owner, 1, 2, &None), Route::Refuse(Refusal::NotImplemented));
    assert_eq!(
        route_request(&s, SessionACL::Owner, 1, 2, &Some(OperationKind::Lookup)),
        Route::Refuse(Refusal::AccessDenied)
    );
}
