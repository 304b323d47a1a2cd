//! A container for slices of data with flexible ownership models.

use vstd::prelude::*;
use std::borrow::Cow;
use std::cell::{Ref, RefCell};
use std::ops::Deref;
use std::rc::Rc;
use std::str::Utf8Error;
use std::string::FromUtf8Error;
use std::sync::{Arc, Mutex, MutexGuard, RwLock, RwLockReadGuard};
use vstd::utf8::{decode_utf8, valid_utf8};

verus! {

/// `std::cell::RefCell`, carried through the library without being looked into.
#[verifier::external_type_specification]
#[verifier::external_body]
#[verifier::reject_recursive_types(T)]
pub struct ExRefCell<T: ?Sized>(RefCell<T>);

/// `std::cell::Ref`, carried through the library without being looked into.
#[verifier::external_type_specification]
#[verifier::external_body]
#[verifier::reject_recursive_types(T)]
pub struct ExRef<'b, T: ?Sized>(Ref<'b, T>);

/// `std::sync::Mutex`, carried through the library without being looked into.
#[verifier::external_type_specification]
#[verifier::external_body]
#[verifier::reject_recursive_types(T)]
pub struct ExMutex<T: ?Sized>(Mutex<T>);

/// `std::sync::MutexGuard`, carried through the library without being looked into.
#[verifier::external_type_specification]
#[verifier::external_body]
#[verifier::reject_recursive_types(T)]
pub struct ExMutexGuard<'b, T: ?Sized + 'b>(MutexGuard<'b, T>);

/// `std::sync::RwLock`, carried through the library without being looked into.
#[verifier::external_type_specification]
#[verifier::external_body]
#[verifier::reject_recursive_types(T)]
pub struct ExRwLock<T: ?Sized>(RwLock<T>);

/// `std::sync::RwLockReadGuard`, carried through the library without being looked into.
#[verifier::external_type_specification]
#[verifier::external_body]
#[verifier::reject_recursive_types(T)]
pub struct ExRwLockReadGuard<'b, T: ?Sized>(RwLockReadGuard<'b, T>);

/// `RefCell::try_borrow`: a shared borrow of the cell's value, or `None` while the
/// value is mutably borrowed, which depends on the program's state: nothing is stated.
#[verifier::external_body]
fn refcell_try_borrow<'b, X>(cell: &'b RefCell<X>) -> Option<Ref<'b, X>> {
    cell.try_borrow().ok()
}

/// `Mutex::try_lock`: the guard of the locked value; `Err(Poisoned)` when the lock is
/// poisoned and `Err(Held)` when it is held right now (by this thread or another). The
/// call neither blocks nor panics. Which of these comes back depends on the program's
/// state, so only that the error is one of the two is stated.
#[verifier::external_body]
fn mutex_try_lock<'b, X>(mutex: &'b Mutex<X>) -> (r: Result<MutexGuard<'b, X>, SafeBorrowError>)
    ensures
        r matches Err(e) ==> e == SafeBorrowError::Poisoned || e == SafeBorrowError::Held,
{
    match mutex.try_lock() {
        Ok(g) => Ok(g),
        Err(std::sync::TryLockError::Poisoned(_)) => Err(SafeBorrowError::Poisoned),
        Err(std::sync::TryLockError::WouldBlock) => Err(SafeBorrowError::Held),
    }
}

/// `RwLock::try_read`: a read guard of the value; `Err(Poisoned)` when the lock is
/// poisoned and `Err(Held)` when it is write-locked right now. The call neither blocks
/// nor panics. Which of these comes back depends on the program's state, so only that
/// the error is one of the two is stated.
#[verifier::external_body]
fn rwlock_try_read<'b, X>(lock: &'b RwLock<X>) -> (r: Result<RwLockReadGuard<'b, X>, SafeBorrowError>)
    ensures
        r matches Err(e) ==> e == SafeBorrowError::Poisoned || e == SafeBorrowError::Held,
{
    match lock.try_read() {
        Ok(g) => Ok(g),
        Err(std::sync::TryLockError::Poisoned(_)) => Err(SafeBorrowError::Poisoned),
        Err(std::sync::TryLockError::WouldBlock) => Err(SafeBorrowError::Held),
    }
}

/// `<Ref as Deref>::deref`: the borrowed value. What it holds is not seen here.
#[verifier::external_body]
fn ref_deref<'g, 'b, X>(guard: &'g Ref<'b, X>) -> &'g X {
    &**guard
}

/// `<MutexGuard as Deref>::deref`: the locked value. What it holds is not seen here.
#[verifier::external_body]
fn mutex_guard_deref<'g, 'b, X>(guard: &'g MutexGuard<'b, X>) -> &'g X {
    &**guard
}

/// `<RwLockReadGuard as Deref>::deref`: the read-locked value. What it holds is not
/// seen here.
#[verifier::external_body]
fn rwlock_guard_deref<'g, 'b, X>(guard: &'g RwLockReadGuard<'b, X>) -> &'g X {
    &**guard
}

/// A generic container enum that provides flexible ownership models for unsized data types.
/// If there is a borrow, its lifetime is 'a.
#[derive(Debug)]
#[verifier::reject_recursive_types(T)]
pub enum Container<'a, T: Clone + 'static> {
    // ----- Simple Variants -----
    /// No data.
    Empty,
    /// An owned, fixed-size, heap-allocated slice.
    Box(Box<[T]>),
    /// An owned, growable, heap-allocated vector.
    Vec(Vec<T>),
    /// A borrowed slice.
    Ref(&'a [T]),
    /// A borrowed slice with copy-on-write.
    Cow(Cow<'a, [T]>),
    /// A reusable, fixed-size slice.
    Rc(Rc<[T]>),
    /// A shared, fixed-size slice.
    Arc(Arc<[T]>),
    // ----- Compound Variants -----
    /// A borrowed, fixed-size, heap-allocated slice.
    RefBox(&'a Box<[T]>),
    /// A borrowed, immutable, heap-allocated vector.
    RefVec(&'a Vec<T>),
    /// A borrowed, fixed-size, heap-allocated vector, with copy-on-write.
    CowBox(Cow<'a, Box<[T]>>),
    /// A borrowed, immutable, heap-allocated vactor, with copy-on-write.
    CowVec(Cow<'a, Vec<T>>),
    /// A reusable, fixed-size, heap-allocated slice.
    RcBox(Rc<Box<[T]>>),
    /// A reusable, immutable, heap-allocated vector.
    RcVec(Rc<Vec<T>>),
    /// A shared, fixed-size, heap-allocated slice.
    ArcBox(Arc<Box<[T]>>),
    /// A shared, immutable, heap-allocated vector.
    ArcVec(Arc<Vec<T>>),
    // ----- Locking Variants -----
    /// A reusable, replaceable, heap-allocated slice.
    RcRefCellBox(Rc<RefCell<Box<[T]>>>),
    /// A reusable, growable, heap-allocated vector.
    RcRefCellVec(Rc<RefCell<Vec<T>>>),
    /// A shared, fixed-size, replacable, heap-allocated slice.
    ArcMutexBox(Arc<Mutex<Box<[T]>>>),
    /// A shared, growable, heap-allocated vector.
    ArcMutexVec(Arc<Mutex<Vec<T>>>),
    /// A shared, fixed-size, replacable, heap-allocated slide with multiple readers.
    ArcRwLockBox(Arc<RwLock<Box<[T]>>>),
    /// A shared, growable, heap-allocated vector with multiple readers.
    ArcRwLockVec(Arc<RwLock<Vec<T>>>),
}

impl<'a, T: Clone + 'static> View for Container<'a, T> {
    type V = Seq<T>;

    /// The items held, whatever the ownership; the items behind a lock are not seen
    /// without taking it, and count as none.
    open spec fn view(&self) -> Seq<T> {
        match self {
            Container::Empty => Seq::empty(),
            Container::Box(v) => v@,
            Container::Vec(v) => v@,
            Container::Ref(v) => v@,
            Container::Cow(v) => match v {
                Cow::Borrowed(s) => s@,
                Cow::Owned(o) => o@,
            },
            Container::Rc(v) => v@,
            Container::Arc(v) => v@,
            Container::RefBox(v) => v@,
            Container::RefVec(v) => v@,
            Container::CowBox(v) => match v {
                Cow::Borrowed(s) => s@,
                Cow::Owned(o) => o@,
            },
            Container::CowVec(v) => match v {
                Cow::Borrowed(s) => s@,
                Cow::Owned(o) => o@,
            },
            Container::RcBox(v) => v@,
            Container::RcVec(v) => v@,
            Container::ArcBox(v) => v@,
            Container::ArcVec(v) => v@,
            _ => Seq::empty(),
        }
    }
}

impl<'a, T: Clone + 'static> Container<'a, T> {
    /// Whether the data is behind a lock (a cell, a mutex or a read-write lock).
    pub open spec fn is_locking(&self) -> bool {
        match self {
            Container::RcRefCellBox(_) | Container::RcRefCellVec(_) | Container::ArcMutexBox(_)
            | Container::ArcMutexVec(_) | Container::ArcRwLockBox(_) | Container::ArcRwLockVec(_) => true,
            _ => false,
        }
    }

    /// Whether the data is behind a lock (a cell, a mutex or a read-write lock), in
    /// which case it can only be reached through `lock`.
    pub fn as_ref_is_safe(&self) -> (r: bool)
        ensures
            r == !self.is_locking(),
    {
        match self {
            Container::RcRefCellBox(_) | Container::RcRefCellVec(_) | Container::ArcMutexBox(_)
            | Container::ArcMutexVec(_) | Container::ArcRwLockBox(_) | Container::ArcRwLockVec(_) => false,
            _ => true,
        }
    }

    /// Returns a borrowed slice &[] from the container.
    /// Hint: use `lock()` to handle locking variants.
    pub fn as_ref(&self) -> (r: &[T])
        requires
            !self.is_locking(),
        ensures
            r@ == self@,
    {
        match self {
            Container::Empty => &[],
            Container::Box(v) => v,
            Container::Vec(v) => v.as_slice(),
            Container::Ref(v) => v,
            Container::Cow(v) => match v {
                Cow::Borrowed(s) => s,
                Cow::Owned(o) => o.as_slice(),
            },
            Container::Rc(v) => v,
            Container::Arc(v) => v,
            Container::RefBox(v) => v,
            Container::RefVec(v) => v.as_slice(),
            Container::CowBox(v) => match v {
                Cow::Borrowed(s) => s,
                Cow::Owned(o) => o,
            },
            Container::CowVec(v) => match v {
                Cow::Borrowed(s) => s.as_slice(),
                Cow::Owned(o) => o.as_slice(),
            },
            Container::RcBox(v) => v,
            Container::RcVec(v) => v.as_slice(),
            Container::ArcBox(v) => v,
            Container::ArcVec(v) => v.as_slice(),
            _ => &[],
        }
    }

    /// Returns the length of the container.
    /// Only available for containers without a lock.
    #[must_use]
    pub fn len(&self) -> (r: usize)
        requires
            !self.is_locking(),
        ensures
            r == self@.len(),
    {
        self.as_ref().len()
    }

    /// Returns true if the container is empty.
    /// Only available for containers without a lock.
    #[must_use]
    pub fn is_empty(&self) -> (r: bool)
        requires
            !self.is_locking(),
        ensures
            r == (self@.len() == 0),
    {
        self.len() == 0
    }
}

// ----- SafeBorrow from a Container -----

/// A value borrowed from a container with flexible ownership models for unsized data types.
#[derive(Debug)]
#[verifier::reject_recursive_types(T)]
pub enum SafeBorrow<'a, T> {
    // ----- Simple Variants -----
    /// No data.
    Empty,
    /// A borrowed reference to a slice.
    Slice(&'a [T]),
    // ----- Locking Variants -----
    /// A borrowed reference to a reusable, replaceable, heap-allocated slice.
    RcRefCellBox(Ref<'a, Box<[T]>>),
    /// A borrowed reference to a reusable, growable, heap-allocated vector.
    RcRefCellVec(Ref<'a, Vec<T>>),
    /// A borrowed reference to a shared, fixed-size, replacable, heap-allocated slice.
    ArcMutexBox(MutexGuard<'a, Box<[T]>>),
    /// A borrowed reference to a shared, growable, heap-allocated vector.
    ArcMutexVec(MutexGuard<'a, Vec<T>>),
    /// A borrowed reference to a shared, fixed-size, replacable, heap-allocated slide with multiple readers.
    ArcRwLockBox(RwLockReadGuard<'a, Box<[T]>>),
    /// A borrowed reference to a shared, growable, heap-allocated vector with multiple readers.
    ArcRwLockVec(RwLockReadGuard<'a, Vec<T>>),
}

impl<'a, T> View for SafeBorrow<'a, T> {
    type V = Seq<T>;

    /// The items borrowed; those behind a guard are not seen here, and count as none.
    open spec fn view(&self) -> Seq<T> {
        match self {
            SafeBorrow::Slice(s) => s@,
            _ => Seq::empty(),
        }
    }
}

impl<'a, T> SafeBorrow<'a, T> {
    /// Whether the items are held through a lock guard.
    pub open spec fn is_guard(&self) -> bool {
        !(self is Empty || self is Slice)
    }

    /// The items borrowed, as a slice; without a guard, exactly the items viewed.
    pub fn as_slice(&self) -> (r: &[T])
        ensures
            !self.is_guard() ==> r@ == self@,
    {
        match self {
            SafeBorrow::Empty => &[],
            SafeBorrow::Slice(s) => s,
            SafeBorrow::RcRefCellBox(g) => {
                let b: &Box<[T]> = ref_deref(g);
                b
            },
            SafeBorrow::RcRefCellVec(g) => ref_deref(g).as_slice(),
            SafeBorrow::ArcMutexBox(g) => {
                let b: &Box<[T]> = mutex_guard_deref(g);
                b
            },
            SafeBorrow::ArcMutexVec(g) => mutex_guard_deref(g).as_slice(),
            SafeBorrow::ArcRwLockBox(g) => {
                let b: &Box<[T]> = rwlock_guard_deref(g);
                b
            },
            SafeBorrow::ArcRwLockVec(g) => rwlock_guard_deref(g).as_slice(),
        }
    }
}

impl<'a, T> Deref for SafeBorrow<'a, T> {
    type Target = [T];

    fn deref(&self) -> (r: &[T])
        ensures
            !self.is_guard() ==> r@ == self@,
    {
        self.as_slice()
    }
}

/// Why a container's data could not be borrowed.
#[derive(Debug, PartialEq, Eq, Structural)]
pub enum SafeBorrowError {
    /// The lock guarding the data was poisoned by a panic.
    Poisoned,
    /// The cell holding the data is mutably borrowed.
    Borrowed,
    /// The lock guarding the data is held right now: taking it would block, or never
    /// return when this thread holds it.
    Held,
}

impl<'a, T: Clone + 'static> Container<'a, T> {
    /// Try to obtain a borrowed slice-like immutable reference from the container.
    /// Will attempt to safely gain access to a locking variant.
    /// # Errors
    /// Returns an error if the source data is held by locking variant and unavailable:
    /// `Borrowed` for a cell that is mutably borrowed; `Poisoned` for a poisoned lock and
    /// `Held` for a lock held right now (the lock is only tried, never waited for, so
    /// taking it twice in one thread fails instead of blocking forever).
    pub fn lock(&self) -> (r: Result<SafeBorrow<'_, T>, SafeBorrowError>)
        ensures
            !self.is_locking() ==> r is Ok && !r->Ok_0.is_guard() && r->Ok_0@ == self@ && (r->Ok_0 is Empty
                <==> self is Empty),
            self.is_locking() && r is Ok ==> r->Ok_0.is_guard(),
            (self is RcRefCellBox || self is RcRefCellVec) && r is Err ==> r->Err_0 == SafeBorrowError::Borrowed,
            (self is ArcMutexBox || self is ArcMutexVec || self is ArcRwLockBox || self is ArcRwLockVec) && r is Err
                ==> r->Err_0 == SafeBorrowError::Poisoned || r->Err_0 == SafeBorrowError::Held,
    {
        match self {
            Container::Empty => Ok(SafeBorrow::Empty),
            Container::RcRefCellBox(value) => match refcell_try_borrow(&**value) {
                Some(g) => Ok(SafeBorrow::RcRefCellBox(g)),
                None => Err(SafeBorrowError::Borrowed),
            },
            Container::RcRefCellVec(value) => match refcell_try_borrow(&**value) {
                Some(g) => Ok(SafeBorrow::RcRefCellVec(g)),
                None => Err(SafeBorrowError::Borrowed),
            },
            Container::ArcMutexBox(value) => match mutex_try_lock(&**value) {
                Ok(g) => Ok(SafeBorrow::ArcMutexBox(g)),
                Err(e) => Err(e),
            },
            Container::ArcMutexVec(value) => match mutex_try_lock(&**value) {
                Ok(g) => Ok(SafeBorrow::ArcMutexVec(g)),
                Err(e) => Err(e),
            },
            Container::ArcRwLockBox(value) => match rwlock_try_read(&**value) {
                Ok(g) => Ok(SafeBorrow::ArcRwLockBox(g)),
                Err(e) => Err(e),
            },
            Container::ArcRwLockVec(value) => match rwlock_try_read(&**value) {
                Ok(g) => Ok(SafeBorrow::ArcRwLockVec(g)),
                Err(e) => Err(e),
            },
            _ => Ok(SafeBorrow::Slice(self.as_ref())),
        }
    }

    /// Borrow the data of a container without a lock.
    pub fn borrow(&self) -> (r: SafeBorrow<'_, T>)
        requires
            !self.is_locking(),
        ensures
            !r.is_guard(),
            r@ == self@,
    {
        match self {
            Container::Empty => SafeBorrow::Empty,
            _ => SafeBorrow::Slice(self.as_ref()),
        }
    }

    /// Try to borrow the container's data, locking it where it is behind a lock; the
    /// same as `lock`.
    pub fn try_borrow(&self) -> (r: Result<SafeBorrow<'_, T>, SafeBorrowError>)
        ensures
            !self.is_locking() ==> r is Ok && r->Ok_0@ == self@,
            self.is_locking() && r is Ok ==> r->Ok_0.is_guard(),
    {
        self.lock()
    }

    /// The container's data as a slice, without taking a lock: an error for a
    /// container whose data is behind a lock.
    pub fn try_as_ref(&self) -> (r: Result<&[T], ToStringError>)
        ensures
            r is Ok <==> !self.is_locking(),
            r is Ok ==> r->Ok_0@ == self@,
            r is Err ==> r->Err_0 is LockRequired,
    {
        if self.as_ref_is_safe() {
            Ok(self.as_ref())
        } else {
            Err(ToStringError::LockRequired)
        }
    }
}

/* ----- Clone ----- */

/// `Vec::into_boxed_slice`: the same items, as a boxed slice.
#[verifier::external_body]
pub(crate) fn vec_into_boxed_slice<T>(vec: Vec<T>) -> (r: Box<[T]>)
    ensures
        r@ == vec@,
{
    vec.into_boxed_slice()
}

/// `<Rc<S> as Clone>::clone`: another handle on the same allocation, so the same value.
#[verifier::external_body]
fn rc_clone<S: ?Sized>(rc: &Rc<S>) -> (r: Rc<S>)
    ensures
        r == *rc,
{
    rc.clone()
}

/// `<Arc<S> as Clone>::clone`: another handle on the same allocation, so the same value.
#[verifier::external_body]
fn arc_clone<S: ?Sized>(arc: &Arc<S>) -> (r: Arc<S>)
    ensures
        r == *arc,
{
    arc.clone()
}

/// A vector holding a clone of each item of `items`, in order.
pub fn clone_items<T: Clone>(items: &[T]) -> (r: Vec<T>)
    ensures
        r@.len() == items@.len(),
        forall|i: int| 0 <= i < items@.len() ==> cloned::<T>(items@[i], #[trigger] r@[i]),
{
    let mut out: Vec<T> = Vec::new();
    let mut i: usize = 0;
    while i < items.len()
        invariant
            i <= items@.len(),
            out@.len() == i,
            forall|k: int| 0 <= k < i ==> cloned::<T>(items@[k], #[trigger] out@[k]),
        decreases items@.len() - i,
    {
        let item = items[i].clone();
        out.push(item);
        i = i + 1;
    }
    out
}

/// A boxed slice holding a clone of each item of `items`, in order.
fn clone_boxed<T: Clone>(items: &Box<[T]>) -> (r: Box<[T]>)
    ensures
        r@.len() == items@.len(),
        forall|i: int| 0 <= i < items@.len() ==> cloned::<T>(items@[i], #[trigger] r@[i]),
{
    let v = clone_items(items);
    vec_into_boxed_slice(v)
}

impl<'a, T: Clone + 'static> Container<'a, T> {
    /// Whether the container borrows or shares its data rather than owning it: cloning
    /// such a container gives the same data without copying an item.
    pub open spec fn shares(&self) -> bool {
        match self {
            Container::Box(_) | Container::Vec(_) => false,
            Container::Cow(c) => c is Borrowed,
            Container::CowBox(c) => c is Borrowed,
            Container::CowVec(c) => c is Borrowed,
            _ => true,
        }
    }

    /// Whether `a` and `b` are the same variant of container.
    pub open spec fn same_variant(a: Self, b: Self) -> bool {
        &&& (a is Empty <==> b is Empty)
        &&& (a is Box <==> b is Box)
        &&& (a is Vec <==> b is Vec)
        &&& (a is Ref <==> b is Ref)
        &&& (a is Cow <==> b is Cow)
        &&& (a is Rc <==> b is Rc)
        &&& (a is Arc <==> b is Arc)
        &&& (a is RefBox <==> b is RefBox)
        &&& (a is RefVec <==> b is RefVec)
        &&& (a is CowBox <==> b is CowBox)
        &&& (a is CowVec <==> b is CowVec)
        &&& (a is RcBox <==> b is RcBox)
        &&& (a is RcVec <==> b is RcVec)
        &&& (a is ArcBox <==> b is ArcBox)
        &&& (a is ArcVec <==> b is ArcVec)
        &&& (a is RcRefCellBox <==> b is RcRefCellBox)
        &&& (a is RcRefCellVec <==> b is RcRefCellVec)
        &&& (a is ArcMutexBox <==> b is ArcMutexBox)
        &&& (a is ArcMutexVec <==> b is ArcMutexVec)
        &&& (a is ArcRwLockBox <==> b is ArcRwLockBox)
        &&& (a is ArcRwLockVec <==> b is ArcRwLockVec)
    }
}

impl<'a, T: Clone + 'static> Clone for Container<'a, T> {
    /// Creates a new container by cheaply copying a smart pointer if possible.
    fn clone(&self) -> (r: Self)
        ensures
            Container::same_variant(*self, r),
            r.shares() == self.shares(),
            self.shares() ==> r == *self,
            r@.len() == self@.len(),
            forall|i: int| 0 <= i < self@.len() ==> cloned::<T>(self@[i], #[trigger] r@[i]),
    {
        match self {
            // ----- Simple Variants -----
            Container::Empty => Container::Empty,
            Container::Box(value) => Container::Box(clone_boxed(value)),
            Container::Vec(value) => Container::Vec(clone_items(value.as_slice())),
            Container::Ref(value) => Container::Ref(value),
            Container::Cow(value) => match value {
                Cow::Borrowed(s) => Container::Cow(Cow::Borrowed(s)),
                Cow::Owned(o) => Container::Cow(Cow::Owned(clone_items(o.as_slice()))),
            },
            Container::Rc(value) => Container::Rc(rc_clone(value)),
            Container::Arc(value) => Container::Arc(arc_clone(value)),
            // ----- Compound Variants -----
            Container::RefBox(value) => Container::RefBox(value),
            Container::RefVec(value) => Container::RefVec(value),
            Container::CowBox(value) => match value {
                Cow::Borrowed(s) => Container::CowBox(Cow::Borrowed(s)),
                Cow::Owned(o) => Container::CowBox(Cow::Owned(clone_boxed(o))),
            },
            Container::CowVec(value) => match value {
                Cow::Borrowed(s) => Container::CowVec(Cow::Borrowed(s)),
                Cow::Owned(o) => Container::CowVec(Cow::Owned(clone_items(o.as_slice()))),
            },
            Container::RcBox(value) => Container::RcBox(rc_clone(value)),
            Container::RcVec(value) => Container::RcVec(rc_clone(value)),
            Container::ArcBox(value) => Container::ArcBox(arc_clone(value)),
            Container::ArcVec(value) => Container::ArcVec(arc_clone(value)),
            // ----- Locking Variants -----
            Container::RcRefCellBox(value) => Container::RcRefCellBox(rc_clone(value)),
            Container::RcRefCellVec(value) => Container::RcRefCellVec(rc_clone(value)),
            Container::ArcMutexBox(value) => Container::ArcMutexBox(arc_clone(value)),
            Container::ArcMutexVec(value) => Container::ArcMutexVec(arc_clone(value)),
            Container::ArcRwLockBox(value) => Container::ArcRwLockBox(arc_clone(value)),
            Container::ArcRwLockVec(value) => Container::ArcRwLockVec(arc_clone(value)),
        }
    }
}

/* ----- Owned copies ----- */

impl<'a, T: Clone + 'static> Container<'a, T> {
    /// Converts the container to an Owned `Vec<T>` by cloning each `item: T`.
    /// Only available for containers without a lock.
    #[must_use]
    pub fn to_vec(&self) -> (r: Vec<T>)
        requires
            !self.is_locking(),
        ensures
            r@.len() == self@.len(),
            forall|i: int| 0 <= i < self@.len() ==> cloned::<T>(self@[i], #[trigger] r@[i]),
    {
        clone_items(self.as_ref())
    }

    /// Converts the container to an Owned `Container<T>` by cloning each `item: T`.
    /// Only available for containers without a lock.
    #[must_use]
    pub fn to_owned(&self) -> (r: Container<'a, T>)
        requires
            !self.is_locking(),
        ensures
            r is Vec,
            r@.len() == self@.len(),
            forall|i: int| 0 <= i < self@.len() ==> cloned::<T>(self@[i], #[trigger] r@[i]),
    {
        Container::Vec(self.to_vec())
    }
}

/// A copy of bytes made by cloning each of them (as `to_vec` and `to_owned` make it)
/// holds exactly the bytes it was made from: `to_owned` of a byte container gives a
/// `Vec` container with the same bytes, and so does `to_owned` of that copy.
pub proof fn law_byte_copy_is_exact(items: Seq<u8>, copy: Seq<u8>)
    requires
        copy.len() == items.len(),
        forall|i: int| 0 <= i < items.len() ==> cloned::<u8>(items[i], #[trigger] copy[i]),
    ensures
        copy == items,
{
    assert forall|i: int| 0 <= i < items.len() implies copy[i] == items[i] by {
        assert(cloned::<u8>(items[i], copy[i]));
    }
    assert(copy =~= items);
}

/// A copy made by cloning each item (as `to_vec` and `to_owned` make it) holds exactly
/// the items it was made from, for an item type whose clones equal their originals:
/// `to_owned` then gives a `Vec` container with the same items as `to_vec`, and its
/// own `to_owned` the same items again. For another item type a copy holds clones,
/// whatever the type's `clone` makes of them.
pub proof fn law_copy_is_exact<T: Clone>(items: Seq<T>, copy: Seq<T>)
    requires
        forall|a: T, b: T| #[trigger] cloned::<T>(a, b) ==> a == b,
        copy.len() == items.len(),
        forall|i: int| 0 <= i < items.len() ==> cloned::<T>(items[i], #[trigger] copy[i]),
    ensures
        copy == items,
{
    assert forall|i: int| 0 <= i < items.len() implies copy[i] == items[i] by {
        assert(cloned::<T>(items[i], copy[i]));
    }
    assert(copy =~= items);
}

/* ----- From ----- */

impl<'a, T: Clone + 'static> vstd::std_specs::convert::FromSpecImpl<()> for Container<'a, T> {
    open spec fn obeys_from_spec() -> bool {
        true
    }

    open spec fn from_spec(v: ()) -> Self {
        Container::Empty
    }
}

impl<'a, T: Clone + 'static> From<()> for Container<'a, T> {
    /// The empty container.
    fn from(v: ()) -> (r: Self)
        ensures
            r == Container::<'a, T>::Empty,
    {
        Container::Empty
    }
}

impl<'a, T: Clone + 'static> vstd::std_specs::convert::FromSpecImpl<Box<[T]>> for Container<'a, T> {
    open spec fn obeys_from_spec() -> bool {
        true
    }

    open spec fn from_spec(value: Box<[T]>) -> Self {
        Container::Box(value)
    }
}

impl<'a, T: Clone + 'static> From<Box<[T]>> for Container<'a, T> {
    /// Hold an owned boxed slice as it is.
    fn from(value: Box<[T]>) -> (r: Self)
        ensures
            r == Container::Box(value),
    {
        Container::Box(value)
    }
}

impl<'a, T: Clone + 'static> vstd::std_specs::convert::FromSpecImpl<Vec<T>> for Container<'a, T> {
    open spec fn obeys_from_spec() -> bool {
        true
    }

    open spec fn from_spec(value: Vec<T>) -> Self {
        Container::Vec(value)
    }
}

impl<'a, T: Clone + 'static> From<Vec<T>> for Container<'a, T> {
    /// Hold an owned vector as it is.
    fn from(value: Vec<T>) -> (r: Self)
        ensures
            r == Container::Vec(value),
    {
        Container::Vec(value)
    }
}

impl<'a, T: Clone + 'static> vstd::std_specs::convert::FromSpecImpl<&'a [T]> for Container<'a, T> {
    open spec fn obeys_from_spec() -> bool {
        true
    }

    open spec fn from_spec(value: &'a [T]) -> Self {
        Container::Ref(value)
    }
}

impl<'a, T: Clone + 'static> From<&'a [T]> for Container<'a, T> {
    /// Hold a borrowed slice as it is.
    fn from(value: &'a [T]) -> (r: Self)
        ensures
            r == Container::Ref(value),
    {
        Container::Ref(value)
    }
}

impl<'a, T: Clone + 'static> vstd::std_specs::convert::FromSpecImpl<Cow<'a, [T]>> for Container<'a, T> {
    open spec fn obeys_from_spec() -> bool {
        true
    }

    open spec fn from_spec(value: Cow<'a, [T]>) -> Self {
        Container::Cow(value)
    }
}

impl<'a, T: Clone + 'static> From<Cow<'a, [T]>> for Container<'a, T> {
    /// Hold a copy-on-write slice as it is.
    fn from(value: Cow<'a, [T]>) -> (r: Self)
        ensures
            r == Container::Cow(value),
    {
        Container::Cow(value)
    }
}

impl<'a, T: Clone + 'static> vstd::std_specs::convert::FromSpecImpl<Rc<[T]>> for Container<'a, T> {
    open spec fn obeys_from_spec() -> bool {
        true
    }

    open spec fn from_spec(value: Rc<[T]>) -> Self {
        Container::Rc(value)
    }
}

impl<'a, T: Clone + 'static> From<Rc<[T]>> for Container<'a, T> {
    /// Hold a reference-counted slice as it is.
    fn from(value: Rc<[T]>) -> (r: Self)
        ensures
            r == Container::Rc(value),
    {
        Container::Rc(value)
    }
}

impl<'a, T: Clone + 'static> vstd::std_specs::convert::FromSpecImpl<Arc<[T]>> for Container<'a, T> {
    open spec fn obeys_from_spec() -> bool {
        true
    }

    open spec fn from_spec(value: Arc<[T]>) -> Self {
        Container::Arc(value)
    }
}

impl<'a, T: Clone + 'static> From<Arc<[T]>> for Container<'a, T> {
    /// Hold an atomically reference-counted slice as it is.
    fn from(value: Arc<[T]>) -> (r: Self)
        ensures
            r == Container::Arc(value),
    {
        Container::Arc(value)
    }
}

impl<'a, T: Clone + 'static> vstd::std_specs::convert::FromSpecImpl<&'a Box<[T]>> for Container<'a, T> {
    open spec fn obeys_from_spec() -> bool {
        true
    }

    open spec fn from_spec(value: &'a Box<[T]>) -> Self {
        Container::RefBox(value)
    }
}

impl<'a, T: Clone + 'static> From<&'a Box<[T]>> for Container<'a, T> {
    /// Hold a borrowed boxed slice as it is.
    fn from(value: &'a Box<[T]>) -> (r: Self)
        ensures
            r == Container::RefBox(value),
    {
        Container::RefBox(value)
    }
}

impl<'a, T: Clone + 'static> vstd::std_specs::convert::FromSpecImpl<&'a Vec<T>> for Container<'a, T> {
    open spec fn obeys_from_spec() -> bool {
        true
    }

    open spec fn from_spec(value: &'a Vec<T>) -> Self {
        Container::RefVec(value)
    }
}

impl<'a, T: Clone + 'static> From<&'a Vec<T>> for Container<'a, T> {
    /// Hold a borrowed vector as it is.
    fn from(value: &'a Vec<T>) -> (r: Self)
        ensures
            r == Container::RefVec(value),
    {
        Container::RefVec(value)
    }
}

impl<'a, T: Clone + 'static> vstd::std_specs::convert::FromSpecImpl<Cow<'a, Box<[T]>>> for Container<'a, T> {
    open spec fn obeys_from_spec() -> bool {
        true
    }

    open spec fn from_spec(value: Cow<'a, Box<[T]>>) -> Self {
        Container::CowBox(value)
    }
}

impl<'a, T: Clone + 'static> From<Cow<'a, Box<[T]>>> for Container<'a, T> {
    /// Hold a copy-on-write boxed slice as it is.
    fn from(value: Cow<'a, Box<[T]>>) -> (r: Self)
        ensures
            r == Container::CowBox(value),
    {
        Container::CowBox(value)
    }
}

impl<'a, T: Clone + 'static> vstd::std_specs::convert::FromSpecImpl<Cow<'a, Vec<T>>> for Container<'a, T> {
    open spec fn obeys_from_spec() -> bool {
        true
    }

    open spec fn from_spec(value: Cow<'a, Vec<T>>) -> Self {
        Container::CowVec(value)
    }
}

impl<'a, T: Clone + 'static> From<Cow<'a, Vec<T>>> for Container<'a, T> {
    /// Hold a copy-on-write vector as it is.
    fn from(value: Cow<'a, Vec<T>>) -> (r: Self)
        ensures
            r == Container::CowVec(value),
    {
        Container::CowVec(value)
    }
}

impl<'a, T: Clone + 'static> vstd::std_specs::convert::FromSpecImpl<Rc<Box<[T]>>> for Container<'a, T> {
    open spec fn obeys_from_spec() -> bool {
        true
    }

    open spec fn from_spec(value: Rc<Box<[T]>>) -> Self {
        Container::RcBox(value)
    }
}

impl<'a, T: Clone + 'static> From<Rc<Box<[T]>>> for Container<'a, T> {
    /// Hold a reference-counted boxed slice as it is.
    fn from(value: Rc<Box<[T]>>) -> (r: Self)
        ensures
            r == Container::RcBox(value),
    {
        Container::RcBox(value)
    }
}

impl<'a, T: Clone + 'static> vstd::std_specs::convert::FromSpecImpl<Rc<Vec<T>>> for Container<'a, T> {
    open spec fn obeys_from_spec() -> bool {
        true
    }

    open spec fn from_spec(value: Rc<Vec<T>>) -> Self {
        Container::RcVec(value)
    }
}

impl<'a, T: Clone + 'static> From<Rc<Vec<T>>> for Container<'a, T> {
    /// Hold a reference-counted vector as it is.
    fn from(value: Rc<Vec<T>>) -> (r: Self)
        ensures
            r == Container::RcVec(value),
    {
        Container::RcVec(value)
    }
}

impl<'a, T: Clone + 'static> vstd::std_specs::convert::FromSpecImpl<Arc<Box<[T]>>> for Container<'a, T> {
    open spec fn obeys_from_spec() -> bool {
        true
    }

    open spec fn from_spec(value: Arc<Box<[T]>>) -> Self {
        Container::ArcBox(value)
    }
}

impl<'a, T: Clone + 'static> From<Arc<Box<[T]>>> for Container<'a, T> {
    /// Hold an atomically reference-counted boxed slice as it is.
    fn from(value: Arc<Box<[T]>>) -> (r: Self)
        ensures
            r == Container::ArcBox(value),
    {
        Container::ArcBox(value)
    }
}

impl<'a, T: Clone + 'static> vstd::std_specs::convert::FromSpecImpl<Arc<Vec<T>>> for Container<'a, T> {
    open spec fn obeys_from_spec() -> bool {
        true
    }

    open spec fn from_spec(value: Arc<Vec<T>>) -> Self {
        Container::ArcVec(value)
    }
}

impl<'a, T: Clone + 'static> From<Arc<Vec<T>>> for Container<'a, T> {
    /// Hold an atomically reference-counted vector as it is.
    fn from(value: Arc<Vec<T>>) -> (r: Self)
        ensures
            r == Container::ArcVec(value),
    {
        Container::ArcVec(value)
    }
}

impl<'a, T: Clone + 'static> vstd::std_specs::convert::FromSpecImpl<Rc<RefCell<Box<[T]>>>> for Container<'a, T> {
    open spec fn obeys_from_spec() -> bool {
        true
    }

    open spec fn from_spec(value: Rc<RefCell<Box<[T]>>>) -> Self {
        Container::RcRefCellBox(value)
    }
}

impl<'a, T: Clone + 'static> From<Rc<RefCell<Box<[T]>>>> for Container<'a, T> {
    /// Hold a reference-counted cell holding a boxed slice as it is.
    fn from(value: Rc<RefCell<Box<[T]>>>) -> (r: Self)
        ensures
            r == Container::RcRefCellBox(value),
    {
        Container::RcRefCellBox(value)
    }
}

impl<'a, T: Clone + 'static> vstd::std_specs::convert::FromSpecImpl<Rc<RefCell<Vec<T>>>> for Container<'a, T> {
    open spec fn obeys_from_spec() -> bool {
        true
    }

    open spec fn from_spec(value: Rc<RefCell<Vec<T>>>) -> Self {
        Container::RcRefCellVec(value)
    }
}

impl<'a, T: Clone + 'static> From<Rc<RefCell<Vec<T>>>> for Container<'a, T> {
    /// Hold a reference-counted cell holding a vector as it is.
    fn from(value: Rc<RefCell<Vec<T>>>) -> (r: Self)
        ensures
            r == Container::RcRefCellVec(value),
    {
        Container::RcRefCellVec(value)
    }
}

impl<'a, T: Clone + 'static> vstd::std_specs::convert::FromSpecImpl<Arc<Mutex<Box<[T]>>>> for Container<'a, T> {
    open spec fn obeys_from_spec() -> bool {
        true
    }

    open spec fn from_spec(value: Arc<Mutex<Box<[T]>>>) -> Self {
        Container::ArcMutexBox(value)
    }
}

impl<'a, T: Clone + 'static> From<Arc<Mutex<Box<[T]>>>> for Container<'a, T> {
    /// Hold a shared mutex holding a boxed slice as it is.
    fn from(value: Arc<Mutex<Box<[T]>>>) -> (r: Self)
        ensures
            r == Container::ArcMutexBox(value),
    {
        Container::ArcMutexBox(value)
    }
}

impl<'a, T: Clone + 'static> vstd::std_specs::convert::FromSpecImpl<Arc<Mutex<Vec<T>>>> for Container<'a, T> {
    open spec fn obeys_from_spec() -> bool {
        true
    }

    open spec fn from_spec(value: Arc<Mutex<Vec<T>>>) -> Self {
        Container::ArcMutexVec(value)
    }
}

impl<'a, T: Clone + 'static> From<Arc<Mutex<Vec<T>>>> for Container<'a, T> {
    /// Hold a shared mutex holding a vector as it is.
    fn from(value: Arc<Mutex<Vec<T>>>) -> (r: Self)
        ensures
            r == Container::ArcMutexVec(value),
    {
        Container::ArcMutexVec(value)
    }
}

impl<'a, T: Clone + 'static> vstd::std_specs::convert::FromSpecImpl<Arc<RwLock<Box<[T]>>>> for Container<'a, T> {
    open spec fn obeys_from_spec() -> bool {
        true
    }

    open spec fn from_spec(value: Arc<RwLock<Box<[T]>>>) -> Self {
        Container::ArcRwLockBox(value)
    }
}

impl<'a, T: Clone + 'static> From<Arc<RwLock<Box<[T]>>>> for Container<'a, T> {
    /// Hold a shared read-write lock holding a boxed slice as it is.
    fn from(value: Arc<RwLock<Box<[T]>>>) -> (r: Self)
        ensures
            r == Container::ArcRwLockBox(value),
    {
        Container::ArcRwLockBox(value)
    }
}

impl<'a, T: Clone + 'static> vstd::std_specs::convert::FromSpecImpl<Arc<RwLock<Vec<T>>>> for Container<'a, T> {
    open spec fn obeys_from_spec() -> bool {
        true
    }

    open spec fn from_spec(value: Arc<RwLock<Vec<T>>>) -> Self {
        Container::ArcRwLockVec(value)
    }
}

impl<'a, T: Clone + 'static> From<Arc<RwLock<Vec<T>>>> for Container<'a, T> {
    /// Hold a shared read-write lock holding a vector as it is.
    fn from(value: Arc<RwLock<Vec<T>>>) -> (r: Self)
        ensures
            r == Container::ArcRwLockVec(value),
    {
        Container::ArcRwLockVec(value)
    }
}

/* ----- u8 and string specializations ----- */

/// `std::str::Utf8Error`, carried through the library without being looked into.
#[verifier::external_type_specification]
#[verifier::external_body]
pub struct ExUtf8Error(Utf8Error);

/// `std::string::FromUtf8Error`, carried through the library without being looked into.
#[verifier::external_type_specification]
#[verifier::external_body]
pub struct ExFromUtf8Error(FromUtf8Error);

/// Why a container's bytes could not be read as a string.
#[derive(Debug, PartialEq)]
pub enum ToStringError {
    /// The bytes are not valid UTF-8 (borrowing conversion).
    Utf8(Utf8Error),
    /// The bytes are not valid UTF-8 (owning conversion).
    FromUtf8(FromUtf8Error),
    /// The data is behind a lock that was not taken, or could not be taken because it
    /// is held right now.
    LockRequired,
    /// The lock guarding the data was poisoned by a panic.
    LockPoisoned,
}

impl vstd::std_specs::convert::FromSpecImpl<Utf8Error> for ToStringError {
    open spec fn obeys_from_spec() -> bool {
        true
    }

    open spec fn from_spec(err: Utf8Error) -> Self {
        ToStringError::Utf8(err)
    }
}

impl From<Utf8Error> for ToStringError {
    fn from(err: Utf8Error) -> (r: Self)
        ensures
            r == ToStringError::Utf8(err),
    {
        ToStringError::Utf8(err)
    }
}

impl vstd::std_specs::convert::FromSpecImpl<FromUtf8Error> for ToStringError {
    open spec fn obeys_from_spec() -> bool {
        true
    }

    open spec fn from_spec(err: FromUtf8Error) -> Self {
        ToStringError::FromUtf8(err)
    }
}

impl From<FromUtf8Error> for ToStringError {
    fn from(err: FromUtf8Error) -> (r: Self)
        ensures
            r == ToStringError::FromUtf8(err),
    {
        ToStringError::FromUtf8(err)
    }
}

/// A string view into a container's bytes, held together with the lock guard that
/// keeps it valid where the bytes are behind a lock.
pub enum StrBorrow<'a> {
    /// The string of a container without a lock.
    Plain(&'a str),
    /// The guard of a locked container, whose bytes were found to be UTF-8 when it was
    /// taken; the lock is held as long as this value lives.
    Guarded(SafeBorrow<'a, u8>),
}

impl<'a> View for StrBorrow<'a> {
    type V = Seq<char>;

    /// The characters of the string; those behind a guard are not modelled.
    closed spec fn view(&self) -> Seq<char> {
        match self {
            StrBorrow::Plain(s) => s@,
            StrBorrow::Guarded(_) => Seq::empty(),
        }
    }
}

impl<'a> StrBorrow<'a> {
    /// The string. The bytes behind a guard cannot change while it is held, so they
    /// are still the UTF-8 that was checked when it was taken; the check is made again
    /// here since what a guard holds is not modelled, and gives `Err` only for bytes
    /// that are not UTF-8.
    pub fn as_str(&self) -> (r: Result<&str, Utf8Error>)
        ensures
            self is Plain ==> r is Ok && r->Ok_0@ == self@,
    {
        match self {
            StrBorrow::Plain(s) => Ok(*s),
            StrBorrow::Guarded(g) => str_from_utf8(g.as_slice()),
        }
    }
}

/// The length of the longest prefix of `bytes` that is valid UTF-8.
pub open spec fn spec_valid_prefix_len(bytes: Seq<u8>) -> int {
    choose|k: int|
        0 <= k <= bytes.len() && valid_utf8(bytes.subrange(0, k)) && forall|j: int|
            k < j <= bytes.len() ==> !valid_utf8(#[trigger] bytes.subrange(0, j))
}

/// What `Utf8Error::valid_up_to` gives for `e`: how many leading bytes of the input
/// were valid UTF-8.
pub uninterp spec fn utf8_valid_up_to(e: Utf8Error) -> usize;

/// `std::str::from_utf8`: as its documentation says, `Ok` exactly when the bytes are
/// valid UTF-8, and then the string those bytes encode; otherwise an error whose
/// `valid_up_to` is the largest index up to which the bytes are valid UTF-8.
#[verifier::external_body]
fn str_from_utf8(bytes: &[u8]) -> (r: Result<&str, Utf8Error>)
    ensures
        r is Ok <==> valid_utf8(bytes@),
        r is Ok ==> r->Ok_0@ == decode_utf8(bytes@),
        r matches Err(e) ==> utf8_valid_up_to(e) == spec_valid_prefix_len(bytes@),
{
    std::str::from_utf8(bytes)
}

/// `String::from_utf8`: as its documentation says, `Ok` exactly when the bytes are
/// valid UTF-8, and then the string those bytes encode.
#[verifier::external_body]
fn string_from_utf8(bytes: Vec<u8>) -> (r: Result<String, FromUtf8Error>)
    ensures
        r is Ok <==> valid_utf8(bytes@),
        r is Ok ==> r->Ok_0@ == decode_utf8(bytes@),
{
    String::from_utf8(bytes)
}

/// The characters `String::from_utf8_lossy` makes of `bytes`: every invalid sequence
/// replaced by U+FFFD.
pub uninterp spec fn utf8_lossy(bytes: Seq<u8>) -> Seq<char>;

/// `String::from_utf8_lossy`, made owned: the lossy decoding of the bytes, which for
/// valid UTF-8 is the string those bytes encode.
#[verifier::external_body]
fn string_from_utf8_lossy(bytes: &[u8]) -> (r: String)
    ensures
        r@ == utf8_lossy(bytes@),
        valid_utf8(bytes@) ==> r@ == decode_utf8(bytes@),
{
    String::from_utf8_lossy(bytes).into_owned()
}

/// `String::into_bytes`: the UTF-8 encoding of the string.
#[verifier::external_body]
fn string_into_bytes(s: String) -> (r: Vec<u8>)
    ensures
        valid_utf8(r@),
        decode_utf8(r@) == s@,
{
    s.into_bytes()
}

impl<'a> vstd::std_specs::convert::FromSpecImpl<String> for Container<'a, u8> {
    /// The bytes have no spec-level constructor from the string; the conversion is
    /// described by the `ensures` of `from` instead.
    open spec fn obeys_from_spec() -> bool {
        false
    }

    open spec fn from_spec(s: String) -> Self {
        Container::Empty
    }
}

impl<'a> From<String> for Container<'a, u8> {
    /// Own the UTF-8 bytes of the string.
    fn from(s: String) -> (r: Self)
        ensures
            r is Vec,
            valid_utf8(r@),
            decode_utf8(r@) == s@,
    {
        Container::Vec(string_into_bytes(s))
    }
}

impl<'a> vstd::std_specs::convert::FromSpecImpl<&'a str> for Container<'a, u8> {
    /// The bytes have no spec-level constructor from the string; the conversion is
    /// described by the `ensures` of `from` instead.
    open spec fn obeys_from_spec() -> bool {
        false
    }

    open spec fn from_spec(s: &'a str) -> Self {
        Container::Empty
    }
}

impl<'a> From<&'a str> for Container<'a, u8> {
    /// Borrow the UTF-8 bytes of the string.
    fn from(s: &'a str) -> (r: Self)
        ensures
            r is Ref,
            valid_utf8(r@),
            decode_utf8(r@) == s@,
    {
        let bytes = s.as_bytes();
        proof {
            vstd::utf8::encode_utf8_valid_utf8(s@);
            vstd::utf8::encode_utf8_decode_utf8(s@);
        }
        Container::Ref(bytes)
    }
}

impl<'a> Container<'a, u8> {
    /// Converts the content of a container without a lock to a `&str`.
    /// Returns `Err(Utf8Error)` if the byte slice is not valid UTF-8.
    pub fn to_str(&self) -> (r: Result<&str, Utf8Error>)
        requires
            !self.is_locking(),
        ensures
            r is Ok <==> valid_utf8(self@),
            r is Ok ==> r->Ok_0@ == decode_utf8(self@),
            r matches Err(e) ==> utf8_valid_up_to(e) == spec_valid_prefix_len(self@),
    {
        str_from_utf8(self.as_ref())
    }

    /// Tries to convert the container's content to a `&str`.
    ///
    /// If the container is a non-locking variant, this attempts direct conversion.
    /// If it's a locking variant, it returns `Err(ToStringError::LockRequired)`
    /// without attempting to acquire a lock.
    pub fn try_to_str(&self) -> (r: Result<&str, ToStringError>)
        ensures
            self.is_locking() ==> r == Err::<&str, ToStringError>(ToStringError::LockRequired),
            !self.is_locking() ==> (r is Ok <==> valid_utf8(self@)),
            !self.is_locking() && r is Ok ==> r->Ok_0@ == decode_utf8(self@),
            !self.is_locking() && r is Err ==> r->Err_0 is Utf8,
            !self.is_locking() ==> (r matches Err(ToStringError::Utf8(e)) ==> utf8_valid_up_to(e) == spec_valid_prefix_len(self@)),
    {
        if self.as_ref_is_safe() {
            match str_from_utf8(self.as_ref()) {
                Ok(s) => Ok(s),
                Err(e) => Err(ToStringError::Utf8(e)),
            }
        } else {
            Err(ToStringError::LockRequired)
        }
    }

    /// Gets a `&str` view into the container's data, acquiring the lock of a locking
    /// variant: the string is handed out together with the lock guard, which keeps it
    /// valid, as a `StrBorrow`.
    /// Returns `Err(ToStringError::Utf8)` if conversion fails,
    /// `Err(ToStringError::LockPoisoned)` if the lock is poisoned, or
    /// `Err(ToStringError::LockRequired)` if the lock is held right now (or the cell
    /// mutably borrowed), so that it could not be taken.
    pub fn get_str(&self) -> (r: Result<StrBorrow<'_>, ToStringError>)
        ensures
            !self.is_locking() ==> (r is Ok <==> valid_utf8(self@)),
            !self.is_locking() && r is Ok ==> r->Ok_0 is Plain && r->Ok_0@ == decode_utf8(self@),
            !self.is_locking() && r is Err ==> r->Err_0 is Utf8,
            !self.is_locking() ==> (r matches Err(ToStringError::Utf8(e)) ==> utf8_valid_up_to(e) == spec_valid_prefix_len(self@)),
            self.is_locking() && r is Ok ==> r->Ok_0 is Guarded,
            self.is_locking() && r is Err ==> (r->Err_0 is Utf8 || r->Err_0 is LockPoisoned
                || r->Err_0 is LockRequired),
    {
        if self.as_ref_is_safe() {
            match str_from_utf8(self.as_ref()) {
                Ok(s) => Ok(StrBorrow::Plain(s)),
                Err(e) => Err(ToStringError::Utf8(e)),
            }
        } else {
            match self.lock() {
                Ok(guard) => {
                    let _utf8: bool = match str_from_utf8(guard.as_slice()) {
                        Ok(_) => true,
                        Err(e) => return Err(ToStringError::Utf8(e)),
                    };
                    Ok(StrBorrow::Guarded(guard))
                },
                Err(SafeBorrowError::Poisoned) => Err(ToStringError::LockPoisoned),
                Err(_) => Err(ToStringError::LockRequired),
            }
        }
    }

    /// Converts the container's content to an owned `String` (strict UTF-8).
    ///
    /// Acquires a lock if necessary.
    /// Returns `Err(ToStringError::FromUtf8)` if conversion fails,
    /// `Err(ToStringError::LockPoisoned)` if the lock is poisoned, or
    /// `Err(ToStringError::LockRequired)` if it is held right now.
    pub fn get_string(&self) -> (r: Result<String, ToStringError>)
        ensures
            !self.is_locking() ==> (r is Ok <==> valid_utf8(self@)),
            !self.is_locking() && r is Ok ==> r->Ok_0@ == decode_utf8(self@),
            r is Err ==> (r->Err_0 is FromUtf8 || (self.is_locking() && (r->Err_0 is LockPoisoned
                || r->Err_0 is LockRequired))),
    {
        let borrowed = match self.lock() {
            Ok(b) => b,
            Err(SafeBorrowError::Poisoned) => return Err(ToStringError::LockPoisoned),
            Err(_) => return Err(ToStringError::LockRequired),
        };
        let mut bytes: Vec<u8> = Vec::new();
        crate::abi::push_bytes(&mut bytes, borrowed.as_slice());
        match string_from_utf8(bytes) {
            Ok(s) => Ok(s),
            Err(e) => Err(ToStringError::FromUtf8(e)),
        }
    }

    /// Converts the container's content to an owned `String` (lossy UTF-8).
    ///
    /// Acquires a lock if necessary.
    /// Returns `Err(ToStringError::LockPoisoned)` if the lock is poisoned, or
    /// `Err(ToStringError::LockRequired)` if it is held right now.
    /// UTF-8 conversion itself is lossy and will not error.
    pub fn get_string_lossy(&self) -> (r: Result<String, ToStringError>)
        ensures
            !self.is_locking() ==> r is Ok,
            !self.is_locking() ==> r->Ok_0@ == utf8_lossy(self@),
            !self.is_locking() && valid_utf8(self@) ==> r->Ok_0@ == decode_utf8(self@),
            r is Err ==> self.is_locking() && (r->Err_0 is LockPoisoned || r->Err_0 is LockRequired),
    {
        let borrowed = match self.lock() {
            Ok(b) => b,
            Err(SafeBorrowError::Poisoned) => return Err(ToStringError::LockPoisoned),
            Err(_) => return Err(ToStringError::LockRequired),
        };
        Ok(string_from_utf8_lossy(borrowed.as_slice()))
    }
}

} // verus!
