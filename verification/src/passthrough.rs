//! Backing files for passthrough: the kernel reads and writes a backing file directly,
//! addressed by a backing id the filesystem obtained for it.

use vstd::prelude::*;

use crate::reply::ExIoError;

verus! {

/// Generic tool for managing backings
pub trait BackingCloser: Send + Sync + Unpin + 'static {
    /// Closing the backing id `id` through this closer does what this says. A closer
    /// may say what it does; by default anything.
    open spec fn closes(&self, id: u32) -> bool {
        true
    }

    /// Close a backing id, without waiting for the result.
    fn close_backing(&self, id: u32)
        ensures
            self.closes(id),
    ;
}

/// Generic tool for managing backings
pub trait BackingCloserFactory {
    /// The callback type that closes backing ids.
    type Closer: BackingCloser;

    /// Create a callback for closing a backing id.
    /// Used to construct `BackingId`
    fn new_closer(&self) -> Self::Closer;
}

/// Generic tool for managing backings
pub trait BackingSender: Send + Sync + Unpin + 'static {
    /// `r` is an outcome of asking the kernel, through this sender, for a backing id
    /// for the file descriptor `fd`. A sender may say what its outcomes are; by default
    /// any outcome is one.
    open spec fn backing_opened(&self, fd: u32, r: Result<u32, std::io::Error>) -> bool {
        true
    }

    /// `r` is an outcome of asking the kernel, through this sender, to close the
    /// backing id `id`. A sender may say what its outcomes are; by default any outcome
    /// is one.
    open spec fn backing_closed(&self, id: u32, r: Result<u32, std::io::Error>) -> bool {
        true
    }

    /// Directly open a backing id.
    fn open_backing(&self, fd: u32) -> (r: Result<u32, std::io::Error>)
        ensures
            self.backing_opened(fd, r),
    ;

    /// Directly close a backing id.
    fn close_backing(&self, id: u32) -> (r: Result<u32, std::io::Error>)
        ensures
            self.backing_closed(id, r),
    ;
}

/// A reference to a previously opened fd intended to be used for passthrough.
///
/// It holds a closer for the backing id; `release` closes the id unless it was already
/// handed back through `BackingHandler::close_backing`, which zeroes it.
pub struct BackingId<K: BackingCloser> {
    closer: K,
    /// The backing_id field passed to and from the kernel
    pub id: u32,
}

impl<K: BackingCloser> BackingId<K> {
    /// The backing id number.
    pub closed spec fn number(&self) -> u32 {
        self.id
    }

    /// The backing id number, as passed to and from the kernel.
    pub fn get(&self) -> (r: u32)
        ensures
            r == self.number(),
    {
        self.id
    }

    /// The closer this id is closed through.
    pub closed spec fn closer(&self) -> K {
        self.closer
    }

    /// Close the backing id if it is still open (nonzero), ending its use: through the
    /// closer's `close_backing` when the id is nonzero. An id of zero (already handed
    /// back) is not closed again.
    pub fn release(self)
        ensures
            self.number() > 0 ==> self.closer().closes(self.number()),
    {
        if self.id > 0 {
            self.closer.close_backing(self.id);
        }
    }
}

/// `BackingHandler` allows the filesystem to create (and destroy) `BackingId`.
pub struct BackingHandler<S: BackingSender, C: BackingCloserFactory> {
    /// Tool for requesting a backing id
    sender: S,
    /// Makes closures to call for closing a backing id
    factory: C,
}

impl<S: BackingSender, C: BackingCloserFactory> BackingHandler<S, C> {
    /// The tool this handler requests backing ids with.
    pub closed spec fn sender(&self) -> S {
        self.sender
    }

    /// The factory this handler makes closers with.
    pub closed spec fn factory(&self) -> C {
        self.factory
    }

    /// Create a handler for backing id operations
    pub fn new(sender: S, factory: C) -> (r: BackingHandler<S, C>)
        ensures
            r.sender() == sender,
            r.factory() == factory,
    {
        BackingHandler { sender, factory }
    }

    /// This method creates a `BackingId` for the file descriptor `fd`: the id the
    /// sender obtained for it, with a closer made by the factory.
    /// # Errors
    /// Reports errors with the underlying fuse connection.
    pub fn open_backing(&self, fd: u32) -> (r: Result<BackingId<C::Closer>, std::io::Error>)
        ensures
            exists|s: Result<u32, std::io::Error>|
                #![trigger self.sender().backing_opened(fd, s)]
                self.sender().backing_opened(fd, s) && match s {
                    Ok(id) => r matches Ok(b) && b.number() == id,
                    Err(e) => r matches Err(e2) && e2 == e,
                },
    {
        let res = self.sender.open_backing(fd);
        let ghost opened = res;
        let r = match res {
            Ok(id) => Ok(BackingId { closer: self.factory.new_closer(), id }),
            Err(e) => Err(e),
        };
        assert(self.sender().backing_opened(fd, opened));
        r
    }

    /// This method destroys a `BackingId`: its id is closed through the sender, and the
    /// id it carried is zeroed so that releasing it closes nothing more.
    /// # Errors
    /// Reports errors with the underlying fuse connection.
    pub fn close_backing(&self, backing: BackingId<C::Closer>) -> (r: Result<u32, std::io::Error>)
        ensures
            self.sender().backing_closed(backing.number(), r),
    {
        let mut backing = backing;
        let id = backing.id;
        backing.id = 0;
        backing.release();
        self.sender.close_backing(id)
    }
}

} // verus!
