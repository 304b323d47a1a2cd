//! Byte slices with flexible ownership, for the data a filesystem hands back to the
//! kernel.

use vstd::prelude::*;
use std::sync::Arc;

verus! {

/// `ByteBox` is an enum that provides a flexible way to return byte slices (`&[u8]`)
/// from `Filesystem` trait methods like `read` and `readlink`. It allows filesystem
/// implementations to return data with different ownership models, optimizing for
/// performance by enabling zero-copy reads where possible.
///
/// - `Borrowed`: For data that already exists in memory and can be borrowed (e.g., static data,
///   mmap'ed file contents). This is the most performant option as it avoids copying.
/// - `Owned`: For newly allocated data that is owned by the `ByteBox` (e.g., data read into a
///   `Vec<u8>` and then converted).
/// - `Shared`: For data that is shared across multiple parts of the filesystem or needs to
///   outlive the current request scope (e.g., cached data wrapped in an `Arc`).
#[derive(Debug)]
pub enum ByteBox<'a> {
    /// A borrowed slice of bytes. This variant should be used when the data
    /// can be safely borrowed for the lifetime `'a`.
    Borrowed(&'a [u8]),
    /// An owned, heap-allocated slice of bytes (`Box<[u8]>`).
    Owned(Box<[u8]>),
    /// A shared, atomically reference-counted slice of bytes (`Arc<[u8]>`).
    Shared(Arc<[u8]>),
}

impl<'a> View for ByteBox<'a> {
    type V = Seq<u8>;

    /// The bytes held, whatever the ownership.
    open spec fn view(&self) -> Seq<u8> {
        match self {
            ByteBox::Borrowed(slice) => slice@,
            ByteBox::Owned(boxed_slice) => boxed_slice@,
            ByteBox::Shared(arc_slice) => arc_slice@,
        }
    }
}

impl<'a> ByteBox<'a> {
    /// The bytes held, as a slice.
    pub fn as_ref(&self) -> (r: &[u8])
        ensures
            r@ == self@,
    {
        match self {
            ByteBox::Borrowed(slice) => slice,
            ByteBox::Owned(boxed_slice) => boxed_slice,
            ByteBox::Shared(arc_slice) => arc_slice,
        }
    }

    /// The number of bytes held.
    pub fn len(&self) -> (r: usize)
        ensures
            r == self@.len(),
    {
        self.as_ref().len()
    }
}

impl<'a> vstd::std_specs::convert::FromSpecImpl<&'a [u8]> for ByteBox<'a> {
    open spec fn obeys_from_spec() -> bool {
        true
    }

    open spec fn from_spec(slice: &'a [u8]) -> Self {
        ByteBox::Borrowed(slice)
    }
}

impl<'a> From<&'a [u8]> for ByteBox<'a> {
    /// Borrow the slice.
    fn from(slice: &'a [u8]) -> (r: Self)
        ensures
            r == ByteBox::Borrowed(slice),
    {
        ByteBox::Borrowed(slice)
    }
}

impl<'a> vstd::std_specs::convert::FromSpecImpl<Vec<u8>> for ByteBox<'a> {
    /// The boxed slice has no spec-level constructor from a vector; the conversion is
    /// described by the `ensures` of `from` instead.
    open spec fn obeys_from_spec() -> bool {
        false
    }

    open spec fn from_spec(vec: Vec<u8>) -> Self {
        ByteBox::Borrowed(&[])
    }
}

impl<'a> From<Vec<u8>> for ByteBox<'a> {
    /// Own the bytes of the vector.
    fn from(vec: Vec<u8>) -> (r: Self)
        ensures
            r is Owned,
            r@ == vec@,
    {
        ByteBox::Owned(crate::container::vec_into_boxed_slice(vec))
    }
}

impl<'a> vstd::std_specs::convert::FromSpecImpl<Box<[u8]>> for ByteBox<'a> {
    open spec fn obeys_from_spec() -> bool {
        true
    }

    open spec fn from_spec(boxed_slice: Box<[u8]>) -> Self {
        ByteBox::Owned(boxed_slice)
    }
}

impl<'a> From<Box<[u8]>> for ByteBox<'a> {
    /// Own the boxed bytes.
    fn from(boxed_slice: Box<[u8]>) -> (r: Self)
        ensures
            r == ByteBox::Owned(boxed_slice),
    {
        ByteBox::Owned(boxed_slice)
    }
}

impl<'a> vstd::std_specs::convert::FromSpecImpl<Arc<[u8]>> for ByteBox<'a> {
    open spec fn obeys_from_spec() -> bool {
        true
    }

    open spec fn from_spec(arc_slice: Arc<[u8]>) -> Self {
        ByteBox::Shared(arc_slice)
    }
}

impl<'a> From<Arc<[u8]>> for ByteBox<'a> {
    /// Share the counted bytes.
    fn from(arc_slice: Arc<[u8]>) -> (r: Self)
        ensures
            r == ByteBox::Shared(arc_slice),
    {
        ByteBox::Shared(arc_slice)
    }
}

impl<'a> std::ops::Deref for ByteBox<'a> {
    type Target = [u8];

    /// The bytes held, as a slice.
    fn deref(&self) -> (r: &[u8])
        ensures
            r@ == self@,
    {
        self.as_ref()
    }
}

} // verus!
