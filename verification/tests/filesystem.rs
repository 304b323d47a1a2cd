use fuser::time::{Timestamp, Ttl};
use fuser::callback::{
    DirectoryHandler, DirectoryPlusHandler, ReplyAttr, ReplyBmap, ReplyCreate, ReplyData, ReplyDirectory,
    ReplyDirectoryPlus, ReplyEmpty, ReplyEntry, ReplyIoctl, ReplyLock, ReplyLseek, ReplyOpen, ReplyPoll, ReplyStatfs,
    ReplyWrite, ReplyXTimes, ReplyXattr,
};
use fuser::data::{FileAttr, FileType, KernelConfig};
use fuser::dispatch::OperationKind;
use fuser::filesystem::{
    batch_forget_nodes, dispatch, lookup_args, mkdir_args, read_args, rename2_args, rename_args,
    setxattr_args, symlink_args, write_args, AccessIn, BmapIn, CopyFileRangeIn, CreateIn, ExchangeIn, FallocateIn, FlushIn,
    FsyncIn, GetattrIn, GetxattrIn, IoctlIn, LinkIn, LkIn, LseekIn, MkdirIn, MknodIn, OpenIn, PollIn, ReadIn,
    ReleaseIn, RenameIn, SetattrIn, SetxattrIn, WriteIn, Filesystem, ENOSYS,
};
use fuser::reply::{ReplyHandler, ReplySender};
use fuser::request::RequestMeta;
use fuser::session::{SessionACL, SessionState};
use std::cell::RefCell;
use std::rc::Rc;

#[derive(Clone, Debug)]
struct Wire(Rc<RefCell<Vec<Vec<u8>>>>);

impl ReplySender for Wire {
    fn send(&self, data: &[u8]) -> Result<(), std::io::Error> {
        self.0.borrow_mut().push(data.to_vec());
        Ok(())
    }
}

fn wire() -> (Wire, Rc<RefCell<Vec<Vec<u8>>>>) {
    let log = Rc::new(RefCell::new(Vec::new()));
    (Wire(log.clone()), log)
}

fn error_of(message: &[u8]) -> i32 {
    i32::from_le_bytes([message[4], message[5], message[6], message[7]])
}

fn len_of(message: &[u8]) -> u32 {
    u32::from_le_bytes([message[0], message[1], message[2], message[3]])
}

fn meta() -> RequestMeta {
    RequestMeta { unique: 9, uid: 1000, gid: 1000, pid: 1 }
}

fn running() -> SessionState {
    SessionState { proto_major: 7, proto_minor: 31, initialized: true, destroyed: false }
}

fn init_body(major: u32, minor: u32) -> Vec<u8> {
    let mut body = Vec::new();
    for word in [major, minor, 4096u32, 0u32] {
        body.extend_from_slice(&word.to_le_bytes());
    }
    body
}

fn plain_attr(ino: u64) -> FileAttr {
    FileAttr {
        ino,
        size: 0,
        blocks: 0,
        atime: Timestamp { secs: 0, nanos: 0 },
        mtime: Timestamp { secs: 0, nanos: 0 },
        ctime: Timestamp { secs: 0, nanos: 0 },
        crtime: Timestamp { secs: 0, nanos: 0 },
        kind: FileType::RegularFile,
        perm: 0o644,
        nlink: 1,
        uid: 0,
        gid: 0,
        rdev: 0,
        blksize: 512,
        flags: 0,
    }
}

/// Serves nothing: every operation that takes a reply is answered ENOSYS.
struct Bare;

/// Answers a few operations and records what it was handed.
struct Small {
    refuse_init: Option<i32>,
    forgotten: Vec<(u64, u64)>,
    renamed: Vec<(u64, u64, u32, Vec<u8>, Vec<u8>)>,
    xattrs: Vec<(Vec<u8>, Vec<u8>)>,
    locks: Vec<(u64, u64, bool)>,
    exchanged: Vec<(u64, u64, u64, Vec<u8>, Vec<u8>)>,
    volumes: Vec<Vec<u8>>,
}

fn small() -> Small {
    Small { refuse_init: None, forgotten: Vec::new(), renamed: Vec::new(), xattrs: Vec::new(), locks: Vec::new(), exchanged: Vec::new(), volumes: Vec::new() }
}

impl Filesystem<Wire> for Bare {
    fn init(&mut self, _req: &RequestMeta, _config: &mut KernelConfig) -> Result<(), i32> {
        Ok(())
    }

    fn destroy(&mut self) {}

    fn forget(&mut self, _req: &RequestMeta, _ino: u64, _nlookup: u64) {}

    fn lookup(&mut self, _req: &RequestMeta, _ino: u64, _name: &[u8], reply: ReplyEntry<Option<ReplyHandler<Wire>>>) {
        reply.error(ENOSYS);
    }

    fn getattr(&mut self, _req: &RequestMeta, _ino: u64, _args: GetattrIn, reply: ReplyAttr<Option<ReplyHandler<Wire>>>) {
        reply.error(ENOSYS);
    }

    fn setattr(&mut self, _req: &RequestMeta, _ino: u64, _args: SetattrIn, reply: ReplyAttr<Option<ReplyHandler<Wire>>>) {
        reply.error(ENOSYS);
    }

    fn readlink(&mut self, _req: &RequestMeta, _ino: u64, reply: ReplyData<Option<ReplyHandler<Wire>>>) {
        reply.error(ENOSYS);
    }

    fn symlink(&mut self, _req: &RequestMeta, _ino: u64, _name: &[u8], _link: &[u8], reply: ReplyEntry<Option<ReplyHandler<Wire>>>) {
        reply.error(ENOSYS);
    }

    fn mknod(&mut self, _req: &RequestMeta, _ino: u64, _args: MknodIn, _name: &[u8], reply: ReplyEntry<Option<ReplyHandler<Wire>>>) {
        reply.error(ENOSYS);
    }

    fn mkdir(&mut self, _req: &RequestMeta, _ino: u64, _args: MkdirIn, _name: &[u8], reply: ReplyEntry<Option<ReplyHandler<Wire>>>) {
        reply.error(ENOSYS);
    }

    fn unlink(&mut self, _req: &RequestMeta, _ino: u64, _name: &[u8], reply: ReplyEmpty<Option<ReplyHandler<Wire>>>) {
        reply.error(ENOSYS);
    }

    fn rmdir(&mut self, _req: &RequestMeta, _ino: u64, _name: &[u8], reply: ReplyEmpty<Option<ReplyHandler<Wire>>>) {
        reply.error(ENOSYS);
    }

    fn rename(&mut self, _req: &RequestMeta, _ino: u64, _args: RenameIn, _name: &[u8], _newname: &[u8], reply: ReplyEmpty<Option<ReplyHandler<Wire>>>) {
        reply.error(ENOSYS);
    }

    fn link(&mut self, _req: &RequestMeta, _ino: u64, _args: LinkIn, _name: &[u8], reply: ReplyEntry<Option<ReplyHandler<Wire>>>) {
        reply.error(ENOSYS);
    }

    fn open(&mut self, _req: &RequestMeta, _ino: u64, _args: OpenIn, reply: ReplyOpen<Option<ReplyHandler<Wire>>>) {
        reply.error(ENOSYS);
    }

    fn read(&mut self, _req: &RequestMeta, _ino: u64, _args: ReadIn, reply: ReplyData<Option<ReplyHandler<Wire>>>) {
        reply.error(ENOSYS);
    }

    fn write(&mut self, _req: &RequestMeta, _ino: u64, _args: WriteIn, _data: &[u8], reply: ReplyWrite<Option<ReplyHandler<Wire>>>) {
        reply.error(ENOSYS);
    }

    fn statfs(&mut self, _req: &RequestMeta, _ino: u64, reply: ReplyStatfs<Option<ReplyHandler<Wire>>>) {
        reply.error(ENOSYS);
    }

    fn release(&mut self, _req: &RequestMeta, _ino: u64, _args: ReleaseIn, reply: ReplyEmpty<Option<ReplyHandler<Wire>>>) {
        reply.ok();
    }

    fn fsync(&mut self, _req: &RequestMeta, _ino: u64, _args: FsyncIn, reply: ReplyEmpty<Option<ReplyHandler<Wire>>>) {
        reply.error(ENOSYS);
    }

    fn setxattr(&mut self, _req: &RequestMeta, _ino: u64, _args: SetxattrIn, _name: &[u8], _value: &[u8], reply: ReplyEmpty<Option<ReplyHandler<Wire>>>) {
        reply.error(ENOSYS);
    }

    fn getxattr(&mut self, _req: &RequestMeta, _ino: u64, _args: GetxattrIn, _name: &[u8], reply: ReplyXattr<Option<ReplyHandler<Wire>>>) {
        reply.error(ENOSYS);
    }

    fn listxattr(&mut self, _req: &RequestMeta, _ino: u64, _args: GetxattrIn, reply: ReplyXattr<Option<ReplyHandler<Wire>>>) {
        reply.error(ENOSYS);
    }

    fn removexattr(&mut self, _req: &RequestMeta, _ino: u64, _name: &[u8], reply: ReplyEmpty<Option<ReplyHandler<Wire>>>) {
        reply.error(ENOSYS);
    }

    fn flush(&mut self, _req: &RequestMeta, _ino: u64, _args: FlushIn, reply: ReplyEmpty<Option<ReplyHandler<Wire>>>) {
        reply.error(ENOSYS);
    }

    fn opendir(&mut self, _req: &RequestMeta, _ino: u64, _args: OpenIn, reply: ReplyOpen<Option<ReplyHandler<Wire>>>) {
        reply.error(ENOSYS);
    }

    fn readdir(&mut self, _req: &RequestMeta, _ino: u64, _args: ReadIn, reply: ReplyDirectory<DirectoryHandler<Wire>>) {
        reply.error(ENOSYS);
    }

    fn releasedir(&mut self, _req: &RequestMeta, _ino: u64, _args: ReleaseIn, reply: ReplyEmpty<Option<ReplyHandler<Wire>>>) {
        reply.ok();
    }

    fn fsyncdir(&mut self, _req: &RequestMeta, _ino: u64, _args: FsyncIn, reply: ReplyEmpty<Option<ReplyHandler<Wire>>>) {
        reply.error(ENOSYS);
    }

    fn getlk(&mut self, _req: &RequestMeta, _ino: u64, _args: LkIn, reply: ReplyLock<Option<ReplyHandler<Wire>>>) {
        reply.error(ENOSYS);
    }

    fn setlk(&mut self, _req: &RequestMeta, _ino: u64, _args: LkIn, _sleep: bool, reply: ReplyEmpty<Option<ReplyHandler<Wire>>>) {
        reply.error(ENOSYS);
    }

    fn access(&mut self, _req: &RequestMeta, _ino: u64, _args: AccessIn, reply: ReplyEmpty<Option<ReplyHandler<Wire>>>) {
        reply.error(ENOSYS);
    }

    fn create(&mut self, _req: &RequestMeta, _ino: u64, _args: CreateIn, _name: &[u8], reply: ReplyCreate<Option<ReplyHandler<Wire>>>) {
        reply.error(ENOSYS);
    }

    fn bmap(&mut self, _req: &RequestMeta, _ino: u64, _args: BmapIn, reply: ReplyBmap<Option<ReplyHandler<Wire>>>) {
        reply.error(ENOSYS);
    }

    fn ioctl(&mut self, _req: &RequestMeta, _ino: u64, _args: IoctlIn, _data: &[u8], reply: ReplyIoctl<Option<ReplyHandler<Wire>>>) {
        reply.error(ENOSYS);
    }

    fn poll(&mut self, _req: &RequestMeta, _ino: u64, _args: PollIn, reply: ReplyPoll<Option<ReplyHandler<Wire>>>) {
        reply.error(ENOSYS);
    }

    fn fallocate(&mut self, _req: &RequestMeta, _ino: u64, _args: FallocateIn, reply: ReplyEmpty<Option<ReplyHandler<Wire>>>) {
        reply.error(ENOSYS);
    }

    fn readdirplus(&mut self, _req: &RequestMeta, _ino: u64, _args: ReadIn, reply: ReplyDirectoryPlus<DirectoryPlusHandler<Wire>>) {
        reply.error(ENOSYS);
    }

    fn lseek(&mut self, _req: &RequestMeta, _ino: u64, _args: LseekIn, reply: ReplyLseek<Option<ReplyHandler<Wire>>>) {
        reply.error(ENOSYS);
    }

    fn copy_file_range(&mut self, _req: &RequestMeta, _ino: u64, _args: CopyFileRangeIn, reply: ReplyWrite<Option<ReplyHandler<Wire>>>) {
        reply.error(ENOSYS);
    }

    fn setvolname(&mut self, _req: &RequestMeta, _name: &[u8], reply: ReplyEmpty<Option<ReplyHandler<Wire>>>) {
        reply.error(ENOSYS);
    }

    fn getxtimes(&mut self, _req: &RequestMeta, _ino: u64, reply: ReplyXTimes<Option<ReplyHandler<Wire>>>) {
        reply.error(ENOSYS);
    }

    fn exchange(&mut self, _req: &RequestMeta, _args: ExchangeIn, _name: &[u8], _newname: &[u8], reply: ReplyEmpty<Option<ReplyHandler<Wire>>>) {
        reply.error(ENOSYS);
    }
}

impl Filesystem<Wire> for Small {
    fn init(&mut self, _req: &RequestMeta, config: &mut KernelConfig) -> Result<(), i32> {
        match self.refuse_init {
            Some(errno) => Err(errno),
            None => {
                let _ = config.set_max_write(4096);
                Ok(())
            }
        }
    }

    fn destroy(&mut self) {}

    fn forget(&mut self, _req: &RequestMeta, ino: u64, nlookup: u64) {
        self.forgotten.push((ino, nlookup));
    }

    fn lookup(&mut self, _req: &RequestMeta, parent: u64, name: &[u8], reply: ReplyEntry<Option<ReplyHandler<Wire>>>) {
        let attr = plain_attr(parent + name.len() as u64);
        reply.entry(&Ttl { secs: 1, nanos: 0 }, &attr, 3);
    }

    fn getattr(&mut self, _req: &RequestMeta, _ino: u64, _args: GetattrIn, reply: ReplyAttr<Option<ReplyHandler<Wire>>>) {
        reply.error(ENOSYS);
    }

    fn setattr(&mut self, _req: &RequestMeta, _ino: u64, _args: SetattrIn, reply: ReplyAttr<Option<ReplyHandler<Wire>>>) {
        reply.error(ENOSYS);
    }

    fn readlink(&mut self, _req: &RequestMeta, _ino: u64, reply: ReplyData<Option<ReplyHandler<Wire>>>) {
        reply.error(ENOSYS);
    }

    fn symlink(&mut self, _req: &RequestMeta, _ino: u64, _name: &[u8], _link: &[u8], reply: ReplyEntry<Option<ReplyHandler<Wire>>>) {
        reply.error(ENOSYS);
    }

    fn mknod(&mut self, _req: &RequestMeta, _ino: u64, _args: MknodIn, _name: &[u8], reply: ReplyEntry<Option<ReplyHandler<Wire>>>) {
        reply.error(ENOSYS);
    }

    fn mkdir(&mut self, _req: &RequestMeta, _ino: u64, _args: MkdirIn, _name: &[u8], reply: ReplyEntry<Option<ReplyHandler<Wire>>>) {
        reply.error(ENOSYS);
    }

    fn unlink(&mut self, _req: &RequestMeta, _ino: u64, _name: &[u8], reply: ReplyEmpty<Option<ReplyHandler<Wire>>>) {
        reply.error(ENOSYS);
    }

    fn rmdir(&mut self, _req: &RequestMeta, _ino: u64, _name: &[u8], reply: ReplyEmpty<Option<ReplyHandler<Wire>>>) {
        reply.error(ENOSYS);
    }

    fn rename(&mut self, _req: &RequestMeta, ino: u64, args: RenameIn, name: &[u8], newname: &[u8], reply: ReplyEmpty<Option<ReplyHandler<Wire>>>) {
        self.renamed.push((ino, args.newdir, args.flags, name.to_vec(), newname.to_vec()));
        reply.ok();
    }

    fn link(&mut self, _req: &RequestMeta, _ino: u64, _args: LinkIn, _name: &[u8], reply: ReplyEntry<Option<ReplyHandler<Wire>>>) {
        reply.error(ENOSYS);
    }

    fn open(&mut self, _req: &RequestMeta, _ino: u64, _args: OpenIn, reply: ReplyOpen<Option<ReplyHandler<Wire>>>) {
        reply.error(ENOSYS);
    }

    fn read(&mut self, _req: &RequestMeta, _ino: u64, _args: ReadIn, reply: ReplyData<Option<ReplyHandler<Wire>>>) {
        reply.error(ENOSYS);
    }

    fn write(&mut self, _req: &RequestMeta, _ino: u64, _args: WriteIn, data: &[u8], reply: ReplyWrite<Option<ReplyHandler<Wire>>>) {
        reply.written(data.len() as u32);
    }

    fn statfs(&mut self, _req: &RequestMeta, _ino: u64, reply: ReplyStatfs<Option<ReplyHandler<Wire>>>) {
        reply.error(ENOSYS);
    }

    fn release(&mut self, _req: &RequestMeta, _ino: u64, _args: ReleaseIn, reply: ReplyEmpty<Option<ReplyHandler<Wire>>>) {
        reply.ok();
    }

    fn fsync(&mut self, _req: &RequestMeta, _ino: u64, _args: FsyncIn, reply: ReplyEmpty<Option<ReplyHandler<Wire>>>) {
        reply.error(ENOSYS);
    }

    fn setxattr(&mut self, _req: &RequestMeta, _ino: u64, _args: SetxattrIn, name: &[u8], value: &[u8], reply: ReplyEmpty<Option<ReplyHandler<Wire>>>) {
        self.xattrs.push((name.to_vec(), value.to_vec()));
        reply.ok();
    }

    fn getxattr(&mut self, _req: &RequestMeta, _ino: u64, _args: GetxattrIn, _name: &[u8], reply: ReplyXattr<Option<ReplyHandler<Wire>>>) {
        reply.error(ENOSYS);
    }

    fn listxattr(&mut self, _req: &RequestMeta, _ino: u64, _args: GetxattrIn, reply: ReplyXattr<Option<ReplyHandler<Wire>>>) {
        reply.error(ENOSYS);
    }

    fn removexattr(&mut self, _req: &RequestMeta, _ino: u64, _name: &[u8], reply: ReplyEmpty<Option<ReplyHandler<Wire>>>) {
        reply.error(ENOSYS);
    }

    fn flush(&mut self, _req: &RequestMeta, _ino: u64, _args: FlushIn, reply: ReplyEmpty<Option<ReplyHandler<Wire>>>) {
        reply.error(ENOSYS);
    }

    fn opendir(&mut self, _req: &RequestMeta, _ino: u64, _args: OpenIn, reply: ReplyOpen<Option<ReplyHandler<Wire>>>) {
        reply.error(ENOSYS);
    }

    fn readdir(&mut self, _req: &RequestMeta, _ino: u64, args: ReadIn, reply: ReplyDirectory<DirectoryHandler<Wire>>) {
        let mut reply = reply;
        if args.offset == 0 {
            let _ = reply.add(2, 1, FileType::RegularFile, b"one");
            let _ = reply.add(3, 2, FileType::RegularFile, b"two");
        }
        reply.ok();
    }

    fn releasedir(&mut self, _req: &RequestMeta, _ino: u64, _args: ReleaseIn, reply: ReplyEmpty<Option<ReplyHandler<Wire>>>) {
        reply.ok();
    }

    fn fsyncdir(&mut self, _req: &RequestMeta, _ino: u64, _args: FsyncIn, reply: ReplyEmpty<Option<ReplyHandler<Wire>>>) {
        reply.error(ENOSYS);
    }

    fn getlk(&mut self, _req: &RequestMeta, _ino: u64, _args: LkIn, reply: ReplyLock<Option<ReplyHandler<Wire>>>) {
        reply.error(ENOSYS);
    }

    fn setlk(&mut self, _req: &RequestMeta, _ino: u64, args: LkIn, sleep: bool, reply: ReplyEmpty<Option<ReplyHandler<Wire>>>) {
        self.locks.push((args.start, args.end, sleep));
        reply.ok();
    }

    fn access(&mut self, _req: &RequestMeta, _ino: u64, _args: AccessIn, reply: ReplyEmpty<Option<ReplyHandler<Wire>>>) {
        reply.error(ENOSYS);
    }

    fn create(&mut self, _req: &RequestMeta, _ino: u64, _args: CreateIn, _name: &[u8], reply: ReplyCreate<Option<ReplyHandler<Wire>>>) {
        reply.error(ENOSYS);
    }

    fn bmap(&mut self, _req: &RequestMeta, _ino: u64, _args: BmapIn, reply: ReplyBmap<Option<ReplyHandler<Wire>>>) {
        reply.error(ENOSYS);
    }

    fn ioctl(&mut self, _req: &RequestMeta, _ino: u64, _args: IoctlIn, _data: &[u8], reply: ReplyIoctl<Option<ReplyHandler<Wire>>>) {
        reply.error(ENOSYS);
    }

    fn poll(&mut self, _req: &RequestMeta, _ino: u64, _args: PollIn, reply: ReplyPoll<Option<ReplyHandler<Wire>>>) {
        reply.error(ENOSYS);
    }

    fn fallocate(&mut self, _req: &RequestMeta, _ino: u64, _args: FallocateIn, reply: ReplyEmpty<Option<ReplyHandler<Wire>>>) {
        reply.error(ENOSYS);
    }

    fn readdirplus(&mut self, _req: &RequestMeta, _ino: u64, _args: ReadIn, reply: ReplyDirectoryPlus<DirectoryPlusHandler<Wire>>) {
        reply.error(ENOSYS);
    }

    fn lseek(&mut self, _req: &RequestMeta, _ino: u64, _args: LseekIn, reply: ReplyLseek<Option<ReplyHandler<Wire>>>) {
        reply.error(ENOSYS);
    }

    fn copy_file_range(&mut self, _req: &RequestMeta, _ino: u64, _args: CopyFileRangeIn, reply: ReplyWrite<Option<ReplyHandler<Wire>>>) {
        reply.error(ENOSYS);
    }

    fn setvolname(&mut self, _req: &RequestMeta, name: &[u8], reply: ReplyEmpty<Option<ReplyHandler<Wire>>>) {
        self.volumes.push(name.to_vec());
        reply.ok();
    }

    fn getxtimes(&mut self, _req: &RequestMeta, _ino: u64, reply: ReplyXTimes<Option<ReplyHandler<Wire>>>) {
        reply.xtimes(Timestamp { secs: 5, nanos: 6 }, Timestamp { secs: 7, nanos: 8 });
    }

    fn exchange(&mut self, _req: &RequestMeta, args: ExchangeIn, name: &[u8], newname: &[u8], reply: ReplyEmpty<Option<ReplyHandler<Wire>>>) {
        self.exchanged.push((args.olddir, args.newdir, args.options, name.to_vec(), newname.to_vec()));
        reply.ok();
    }
}


#[test]
fn fs_requests_before_init_are_refused() {
    let (w, log) = wire();
    let mut state = SessionState::new();
    let accepted = dispatch(&mut Bare, &mut state, SessionACL::All, 0, meta(), 1, Some(OperationKind::Lookup), b"a\0", ReplyHandler::new(9, w));
    assert!(!accepted);
    assert_eq!(error_of(&log.borrow()[0]), -libc::EIO);
    assert!(!state.initialized);
}

#[test]
fn fs_init_handshake_answers_with_config() {
    let (w, log) = wire();
    let mut state = SessionState::new();
    let mut fs = small();
    let accepted = dispatch(
        &mut fs,
        &mut state,
        SessionACL::All,
        0,
        meta(),
        0,
        Some(OperationKind::Init { major: 7, minor: 31 }),
        &init_body(7, 31),
        ReplyHandler::new(9, w),
    );
    assert!(accepted);
    assert!(state.initialized);
    assert_eq!((state.proto_major, state.proto_minor), (7, 31));
    let sent = &log.borrow()[0];
    assert_eq!(error_of(sent), 0);
    assert_eq!(len_of(sent), 16 + 64);
    // max_write as the filesystem set it
    assert_eq!(u32::from_le_bytes([sent[36], sent[37], sent[38], sent[39]]), 4096);
}

#[test]
fn fs_init_refused_by_filesystem() {
    let (w, log) = wire();
    let mut state = SessionState::new();
    let mut fs = Small { refuse_init: Some(libc::EACCES), ..small() };
    let accepted = dispatch(
        &mut fs,
        &mut state,
        SessionACL::All,
        0,
        meta(),
        0,
        Some(OperationKind::Init { major: 7, minor: 31 }),
        &init_body(7, 31),
        ReplyHandler::new(9, w),
    );
    assert!(!accepted);
    assert!(!state.initialized);
    assert_eq!(error_of(&log.borrow()[0]), -libc::EACCES);
}

#[test]
fn fs_init_with_short_body_is_enosys() {
    let (w, log) = wire();
    let mut state = SessionState::new();
    let accepted = dispatch(&mut Bare, &mut state, SessionACL::All, 0, meta(), 0, Some(OperationKind::Init { major: 7, minor: 31 }), &[7, 0, 0, 0, 31, 0, 0, 0], ReplyHandler::new(9, w));
    assert!(!accepted);
    assert_eq!(error_of(&log.borrow()[0]), -libc::ENOSYS);
    assert_eq!(state, SessionState::new());
}

#[test]
fn fs_unreadable_request_is_enosys_before_access_check() {
    let (w, log) = wire();
    let mut state = running();
    let mut fs = small();
    dispatch(&mut fs, &mut state, SessionACL::Owner, 1, meta(), 7, Some(OperationKind::Rename), b"\0\0", ReplyHandler::new(9, w));
    assert!(fs.renamed.is_empty());
    assert_eq!(error_of(&log.borrow()[0]), -libc::ENOSYS);
    assert_eq!(state, running());
}

#[test]
fn fs_forget_with_short_body_is_answered_enosys() {
    let (w, log) = wire();
    let mut state = running();
    let mut fs = small();
    dispatch(&mut fs, &mut state, SessionACL::All, 0, meta(), 7, Some(OperationKind::Forget), b"\0\0", ReplyHandler::new(9, w));
    assert!(fs.forgotten.is_empty());
    assert_eq!(error_of(&log.borrow()[0]), -libc::ENOSYS);
}

#[test]
fn fs_default_methods_answer_enosys() {
    let (w, log) = wire();
    let mut state = running();
    dispatch(&mut Bare, &mut state, SessionACL::All, 0, meta(), 1, Some(OperationKind::Lookup), b"name\0", ReplyHandler::new(9, w.clone()));
    dispatch(&mut Bare, &mut state, SessionACL::All, 0, meta(), 1, Some(OperationKind::StatFs), b"", ReplyHandler::new(10, w));
    assert_eq!(error_of(&log.borrow()[0]), -libc::ENOSYS);
    assert_eq!(error_of(&log.borrow()[1]), -libc::ENOSYS);
}

#[test]
fn fs_default_release_answers_ok() {
    let (w, log) = wire();
    let mut state = running();
    dispatch(&mut Bare, &mut state, SessionACL::All, 0, meta(), 1, Some(OperationKind::Release), &[0u8; 24], ReplyHandler::new(9, w));
    assert_eq!(error_of(&log.borrow()[0]), 0);
    assert_eq!(len_of(&log.borrow()[0]), 16);
}

#[test]
fn fs_lookup_reaches_filesystem_with_name() {
    let (w, log) = wire();
    let mut state = running();
    let mut fs = small();
    dispatch(&mut fs, &mut state, SessionACL::All, 0, meta(), 10, Some(OperationKind::Lookup), b"abc\0", ReplyHandler::new(9, w));
    let sent = &log.borrow()[0];
    assert_eq!(error_of(sent), 0);
    assert_eq!(len_of(sent), 16 + 128);
    // the entry's inode: parent plus the name's length
    assert_eq!(u64::from_le_bytes(sent[16..24].try_into().unwrap()), 13);
}

#[test]
fn fs_lookup_without_name_terminator_is_enosys() {
    let (w, log) = wire();
    let mut state = running();
    let mut fs = small();
    dispatch(&mut fs, &mut state, SessionACL::All, 0, meta(), 10, Some(OperationKind::Lookup), b"abc", ReplyHandler::new(9, w));
    assert_eq!(error_of(&log.borrow()[0]), -libc::ENOSYS);
}

#[test]
fn fs_forget_takes_no_reply() {
    let (w, log) = wire();
    let mut state = running();
    let mut fs = small();
    dispatch(&mut fs, &mut state, SessionACL::All, 0, meta(), 7, Some(OperationKind::Forget), &5u64.to_le_bytes(), ReplyHandler::new(9, w));
    assert!(log.borrow().is_empty());
    assert_eq!(fs.forgotten, vec![(7, 5)]);
}

#[test]
fn fs_batch_forget_forgets_each_in_order() {
    let (w, log) = wire();
    let mut state = running();
    let mut fs = small();
    let mut body = Vec::new();
    body.extend_from_slice(&2u32.to_le_bytes());
    body.extend_from_slice(&0u32.to_le_bytes());
    for (ino, n) in [(5u64, 1u64), (6, 2)] {
        body.extend_from_slice(&ino.to_le_bytes());
        body.extend_from_slice(&n.to_le_bytes());
    }
    dispatch(&mut fs, &mut state, SessionACL::All, 0, meta(), 0, Some(OperationKind::BatchForget), &body, ReplyHandler::new(9, w));
    assert!(log.borrow().is_empty());
    assert_eq!(fs.forgotten, vec![(5, 1), (6, 2)]);
}

#[test]
fn fs_undecoded_operation_is_enosys() {
    let (w, log) = wire();
    let mut state = running();
    dispatch(&mut Bare, &mut state, SessionACL::All, 0, meta(), 1, Some(OperationKind::SetAttr), &[0u8; 88], ReplyHandler::new(9, w));
    assert_eq!(error_of(&log.borrow()[0]), -libc::ENOSYS);
}

#[test]
fn fs_readdir_listing_is_limited_to_requested_size() {
    let mut read_in = Vec::new();
    read_in.extend_from_slice(&1u64.to_le_bytes()); // fh
    read_in.extend_from_slice(&0u64.to_le_bytes()); // offset
    read_in.extend_from_slice(&40u32.to_le_bytes()); // size: room for one entry
    read_in.extend_from_slice(&[0u8; 20]);
    let (w, log) = wire();
    let mut state = running();
    let mut fs = small();
    dispatch(&mut fs, &mut state, SessionACL::All, 0, meta(), 1, Some(OperationKind::ReadDir), &read_in, ReplyHandler::new(9, w));
    let sent = &log.borrow()[0];
    assert_eq!(error_of(sent), 0);
    // one 24-byte dirent header and the 3-byte name, padded to 32 bytes
    assert_eq!(len_of(sent), 16 + 32);
}

#[test]
fn fs_destroy_answers_ok_and_ends_service() {
    let (w, log) = wire();
    let mut state = running();
    dispatch(&mut Bare, &mut state, SessionACL::All, 0, meta(), 0, Some(OperationKind::Destroy), b"", ReplyHandler::new(9, w.clone()));
    assert!(state.destroyed);
    assert_eq!(error_of(&log.borrow()[0]), 0);
    dispatch(&mut Bare, &mut state, SessionACL::All, 0, meta(), 1, Some(OperationKind::StatFs), b"", ReplyHandler::new(10, w));
    assert_eq!(error_of(&log.borrow()[1]), -libc::EIO);
}

#[test]
fn fs_argument_decoding() {
    assert_eq!(lookup_args(b"ab\0cd"), Some(&b"ab"[..]));
    assert_eq!(lookup_args(b"ab"), None);
    let mut read_in = Vec::new();
    read_in.extend_from_slice(&7u64.to_le_bytes());
    read_in.extend_from_slice(&100u64.to_le_bytes());
    read_in.extend_from_slice(&4096u32.to_le_bytes());
    read_in.extend_from_slice(&2u32.to_le_bytes());
    read_in.extend_from_slice(&55u64.to_le_bytes());
    read_in.extend_from_slice(&1u32.to_le_bytes());
    read_in.extend_from_slice(&0u32.to_le_bytes());
    assert_eq!(
        read_args(&read_in),
        Some(ReadIn { fh: 7, offset: 100, size: 4096, read_flags: 2, lock_owner: 55, flags: 1, padding: 0 })
    );
    assert_eq!(read_args(&read_in[..39]), None);
    assert_eq!(symlink_args(b"link\0target\0"), Some((&b"link"[..], &b"target"[..])));
    assert_eq!(symlink_args(b"link\0target"), None);
    let mut rename_in = Vec::new();
    rename_in.extend_from_slice(&5u64.to_le_bytes());
    rename_in.extend_from_slice(b"a\0b\0");
    assert_eq!(rename_args(&rename_in), Some((RenameIn { newdir: 5, flags: 0, padding: 0 }, &b"a"[..], &b"b"[..])));
    let mut rename2_in = Vec::new();
    rename2_in.extend_from_slice(&5u64.to_le_bytes());
    rename2_in.extend_from_slice(&1u32.to_le_bytes());
    rename2_in.extend_from_slice(&0u32.to_le_bytes());
    rename2_in.extend_from_slice(b"a\0b\0");
    assert_eq!(rename2_args(&rename2_in), Some((RenameIn { newdir: 5, flags: 1, padding: 0 }, &b"a"[..], &b"b"[..])));
    let mut setxattr_in = Vec::new();
    setxattr_in.extend_from_slice(&3u32.to_le_bytes());
    setxattr_in.extend_from_slice(&0u32.to_le_bytes());
    setxattr_in.extend_from_slice(b"user.k\0vvvextra");
    assert_eq!(setxattr_args(&setxattr_in), Some((SetxattrIn { size: 3, flags: 0 }, &b"user.k"[..], &b"vvv"[..])));
    assert_eq!(batch_forget_nodes(&[1, 0, 0, 0, 0, 0, 0, 0]), None);
}

#[test]
fn fs_write_hands_over_the_data() {
    let mut write_in = Vec::new();
    write_in.extend_from_slice(&1u64.to_le_bytes());
    write_in.extend_from_slice(&0u64.to_le_bytes());
    write_in.extend_from_slice(&3u32.to_le_bytes());
    write_in.extend_from_slice(&[0u8; 20]);
    write_in.extend_from_slice(b"xyz");
    let (args, data) = write_args(&write_in).unwrap();
    assert_eq!(data, b"xyz");
    assert_eq!(args.fh, 1);
    assert!(write_args(&write_in[..42]).is_none());
    let (w, log) = wire();
    let mut state = running();
    let mut fs = small();
    dispatch(&mut fs, &mut state, SessionACL::All, 0, meta(), 1, Some(OperationKind::Write), &write_in, ReplyHandler::new(9, w));
    let sent = &log.borrow()[0];
    assert_eq!(error_of(sent), 0);
    assert_eq!(u32::from_le_bytes([sent[16], sent[17], sent[18], sent[19]]), 3);
}

#[test]
fn fs_mkdir_and_unlink_default_to_enosys() {
    let mut mkdir_in = Vec::new();
    mkdir_in.extend_from_slice(&0o755u32.to_le_bytes());
    mkdir_in.extend_from_slice(&0o022u32.to_le_bytes());
    mkdir_in.extend_from_slice(b"dir\0");
    assert_eq!(mkdir_args(&mkdir_in), Some((MkdirIn { mode: 0o755, umask: 0o022 }, &b"dir"[..])));
    let (w, log) = wire();
    let mut state = running();
    dispatch(&mut Bare, &mut state, SessionACL::All, 0, meta(), 1, Some(OperationKind::MkDir), &mkdir_in, ReplyHandler::new(9, w.clone()));
    dispatch(&mut Bare, &mut state, SessionACL::All, 0, meta(), 1, Some(OperationKind::Unlink), b"f\0", ReplyHandler::new(10, w));
    assert_eq!(error_of(&log.borrow()[0]), -libc::ENOSYS);
    assert_eq!(error_of(&log.borrow()[1]), -libc::ENOSYS);
}

#[test]
fn fs_rename_hands_over_both_names() {
    let (w, log) = wire();
    let mut state = running();
    let mut fs = small();
    let mut body = Vec::new();
    body.extend_from_slice(&5u64.to_le_bytes());
    body.extend_from_slice(b"old\0new\0");
    dispatch(&mut fs, &mut state, SessionACL::All, 0, meta(), 4, Some(OperationKind::Rename), &body, ReplyHandler::new(9, w));
    assert_eq!(fs.renamed, vec![(4, 5, 0, b"old".to_vec(), b"new".to_vec())]);
    assert_eq!(error_of(&log.borrow()[0]), 0);
}

#[test]
fn fs_setxattr_hands_over_name_and_value() {
    let (w, log) = wire();
    let mut state = running();
    let mut fs = small();
    let mut body = Vec::new();
    body.extend_from_slice(&2u32.to_le_bytes());
    body.extend_from_slice(&0u32.to_le_bytes());
    body.extend_from_slice(b"user.a\0xy");
    dispatch(&mut fs, &mut state, SessionACL::All, 0, meta(), 4, Some(OperationKind::SetXAttr), &body, ReplyHandler::new(9, w));
    assert_eq!(fs.xattrs, vec![(b"user.a".to_vec(), b"xy".to_vec())]);
    assert_eq!(error_of(&log.borrow()[0]), 0);
}

#[test]
fn fs_setlk_and_setlkw_differ_in_sleep() {
    let (w, _log) = wire();
    let mut state = running();
    let mut fs = small();
    let mut body = Vec::new();
    for v in [1u64, 2, 10, 20] {
        body.extend_from_slice(&v.to_le_bytes());
    }
    body.extend_from_slice(&[0u8; 16]);
    dispatch(&mut fs, &mut state, SessionACL::All, 0, meta(), 4, Some(OperationKind::SetLk), &body, ReplyHandler::new(9, w.clone()));
    dispatch(&mut fs, &mut state, SessionACL::All, 0, meta(), 4, Some(OperationKind::SetLkW), &body, ReplyHandler::new(10, w));
    assert_eq!(fs.locks, vec![(10, 20, false), (10, 20, true)]);
}

#[test]
fn fs_refused_request_leaves_filesystem_alone() {
    let (w, log) = wire();
    let mut state = running();
    let mut fs = small();
    dispatch(&mut fs, &mut state, SessionACL::Owner, 1, meta(), 7, Some(OperationKind::Rename), b"\0\0\0\0\0\0\0\0a\0b\0", ReplyHandler::new(9, w));
    assert!(fs.renamed.is_empty());
    assert_eq!(error_of(&log.borrow()[0]), -libc::EACCES);
}

#[test]
fn fs_exchange_hands_over_both_entries() {
    let (w, log) = wire();
    let mut state = running();
    let mut fs = small();
    let mut body = Vec::new();
    for v in [3u64, 4, 1] {
        body.extend_from_slice(&v.to_le_bytes());
    }
    body.extend_from_slice(b"a\0bc\0");
    dispatch(&mut fs, &mut state, SessionACL::All, 0, meta(), 9, Some(OperationKind::Exchange), &body, ReplyHandler::new(9, w));
    assert_eq!(fs.exchanged, vec![(3, 4, 1, b"a".to_vec(), b"bc".to_vec())]);
    assert_eq!(error_of(&log.borrow()[0]), 0);
}

#[test]
fn fs_exchange_with_short_body_is_enosys() {
    let (w, log) = wire();
    let mut state = running();
    let mut fs = small();
    dispatch(&mut fs, &mut state, SessionACL::All, 0, meta(), 9, Some(OperationKind::Exchange), &[0u8; 16], ReplyHandler::new(9, w));
    assert!(fs.exchanged.is_empty());
    assert_eq!(error_of(&log.borrow()[0]), -libc::ENOSYS);
}

#[test]
fn fs_getxtimes_reply_carries_both_times() {
    let (w, log) = wire();
    let mut state = running();
    let mut fs = small();
    dispatch(&mut fs, &mut state, SessionACL::All, 0, meta(), 9, Some(OperationKind::GetXTimes), b"", ReplyHandler::new(9, w));
    let message = log.borrow()[0].clone();
    assert_eq!(len_of(&message), 16 + 24);
    assert_eq!(error_of(&message), 0);
    let mut expected = Vec::new();
    expected.extend_from_slice(&5u64.to_le_bytes());
    expected.extend_from_slice(&7u64.to_le_bytes());
    expected.extend_from_slice(&6u32.to_le_bytes());
    expected.extend_from_slice(&8u32.to_le_bytes());
    assert_eq!(&message[16..], &expected[..]);
}

#[test]
fn fs_setvolname_reaches_the_filesystem() {
    let (w, log) = wire();
    let mut state = running();
    let mut fs = small();
    dispatch(&mut fs, &mut state, SessionACL::All, 0, meta(), 1, Some(OperationKind::SetVolName), b"vol\0", ReplyHandler::new(9, w));
    assert_eq!(fs.volumes, vec![b"vol".to_vec()]);
    assert_eq!(error_of(&log.borrow()[0]), 0);
}
