//! Byte buffers with an active window.

use vstd::prelude::*;
use vstd::slice::slice_subrange;

verus! {

/// A buffer that changes hands whole, together with the window of it that the
/// receiver is meant to look at.
///
/// Whoever holds the value can recover the entire buffer, so narrowing the
/// window before a transfer loses nothing.
#[derive(Debug)]
pub struct SubSlice {
    internal: Vec<u8>,
    start: usize,
    end: usize,
}

/// The entire buffer, and the half-open window within it.
#[verifier::ext_equal]
pub struct SubSliceView {
    pub bytes: Seq<u8>,
    pub start: int,
    pub end: int,
}

impl SubSliceView {
    /// The buffer with a window that spans all of it.
    pub open spec fn whole(bytes: Seq<u8>) -> SubSliceView {
        SubSliceView { bytes, start: 0, end: bytes.len() as int }
    }

    /// The bytes inside the window.
    pub open spec fn active(self) -> Seq<u8> {
        self.bytes.subrange(self.start, self.end)
    }
}

impl View for SubSlice {
    type V = SubSliceView;

    closed spec fn view(&self) -> SubSliceView {
        SubSliceView { bytes: self.internal@, start: self.start as int, end: self.end as int }
    }
}

impl SubSlice {
    #[verifier::type_invariant]
    spec fn window_in_bounds(self) -> bool {
        self.start <= self.end <= self.internal.len()
    }

    /// Wraps a buffer. The window spans all of it.
    pub fn new(buffer: Vec<u8>) -> (data: SubSlice)
        ensures
            data@ == SubSliceView::whole(buffer@),
    {
        let end: usize = buffer.len();
        SubSlice { internal: buffer, start: 0, end }
    }

    /// Widens the window to the entire buffer.
    pub fn reset(&mut self)
        ensures
            final(self)@ == SubSliceView::whole(old(self)@.bytes),
    {
        proof {
            use_type_invariant(&*self);
        }
        let end: usize = self.internal.len();
        self.start = 0;
        self.end = end;
    }

    /// Narrows the window. The bounds count from where the window starts now.
    pub fn slice(&mut self, from: usize, to: usize)
        requires
            from <= to <= old(self)@.end - old(self)@.start,
        ensures
            final(self)@ == (SubSliceView {
                bytes: old(self)@.bytes,
                start: old(self)@.start + from,
                end: old(self)@.start + to,
            }),
    {
        proof {
            use_type_invariant(&*self);
        }
        let base: usize = self.start;
        self.end = base + to;
        self.start = base + from;
    }

    /// Returns the length of the window, which lies inside the buffer.
    pub fn len(&self) -> (len: usize)
        ensures
            len == self@.end - self@.start,
            0 <= self@.start <= self@.end <= self@.bytes.len(),
    {
        proof {
            use_type_invariant(self);
        }
        self.end - self.start
    }

    /// Returns the length of the entire buffer.
    pub fn capacity(&self) -> (capacity: usize)
        ensures
            capacity == self@.bytes.len(),
    {
        self.internal.len()
    }

    /// Returns the bytes inside the window.
    pub fn as_slice(&self) -> (bytes: &[u8])
        ensures
            bytes@ == self@.active(),
    {
        proof {
            use_type_invariant(self);
        }
        slice_subrange(self.internal.as_slice(), self.start, self.end)
    }

    /// Returns the entire buffer, whatever the window.
    pub fn take(self) -> (buffer: Vec<u8>)
        ensures
            buffer@ == self@.bytes,
    {
        self.internal
    }
}

} // verus!
