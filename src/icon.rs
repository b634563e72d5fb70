use vstd::prelude::*;

use crate::error::Error;

verus! {

/// An icon image made ready for the notification area.
///
/// Two icons are equal when they were made from the same image buffer,
/// whatever their pixels: `source` and `len` identify that buffer (its
/// address and its length) and `handle` is the native icon decoded from it.
#[derive(Debug, Clone, Copy)]
pub struct Icon {
    source: usize,
    len: usize,
    handle: usize,
}

impl Icon {
    /// The address of the buffer this icon was made from.
    pub closed spec fn source_spec(&self) -> usize {
        self.source
    }

    /// The length of the buffer this icon was made from.
    pub closed spec fn len_spec(&self) -> usize {
        self.len
    }

    /// The native icon decoded from the buffer.
    pub closed spec fn handle_spec(&self) -> usize {
        self.handle
    }

    /// The two icons were made from one buffer.
    pub open spec fn same_buffer(&self, other: Icon) -> bool {
        self.source_spec() == other.source_spec() && self.len_spec() == other.len_spec()
    }

    /// Makes an icon of the buffer at `source` of `len` bytes, given what
    /// decoding it gave: the native icon, or nothing when the image could not
    /// be read.
    pub fn from_buffer(source: usize, len: usize, decoded: Option<usize>) -> (r: Result<Icon, Error>)
        ensures
            decoded is None ==> r == Err::<Icon, Error>(Error::IconLoadingFailed),
            decoded matches Some(h) ==> (r matches Ok(i) && i.source_spec() == source
                && i.len_spec() == len && i.handle_spec() == h),
    {
        match decoded {
            Some(handle) => Ok(Icon { source, len, handle }),
            None => Err(Error::IconLoadingFailed),
        }
    }

    pub fn source(&self) -> (r: usize)
        ensures
            r == self.source_spec(),
    {
        self.source
    }

    pub fn len(&self) -> (r: usize)
        ensures
            r == self.len_spec(),
    {
        self.len
    }

    pub fn handle(&self) -> (r: usize)
        ensures
            r == self.handle_spec(),
    {
        self.handle
    }
}

impl PartialEq for Icon {
    fn eq(&self, other: &Icon) -> (r: bool)
        ensures
            r == self.same_buffer(*other),
    {
        self.source == other.source && self.len == other.len
    }
}

impl vstd::std_specs::cmp::PartialEqSpecImpl for Icon {
    open spec fn obeys_eq_spec() -> bool {
        true
    }

    open spec fn eq_spec(&self, other: &Icon) -> bool {
        self.same_buffer(*other)
    }
}

} // verus!
