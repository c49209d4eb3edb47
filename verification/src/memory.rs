//! A growable linear memory, measured in fixed-size pages.
//!
//! The engine never re-implements a paging policy beyond this contract:
//! `grow` either extends the byte store by whole pages and returns the
//! previous page count, or fails without mutating state; `current_pages`
//! reports the present size.

use vstd::prelude::*;

use crate::errors::ErrorKind;

verus! {

/// Bytes per page.
pub const PAGE_SIZE: u32 = 65536;

/// The largest page count any memory may reach (a 32-bit address space).
pub const MAX_PAGES: u32 = 65536;

/// A sequence of `n` zero bytes.
pub open spec fn zero_bytes(n: int) -> Seq<u8> {
    Seq::new(n as nat, |i: int| 0u8)
}

/// A linear memory: a byte store that grows by whole pages, with an
/// optional maximum page count.
#[derive(Debug)]
pub struct LinearMemory {
    /// The backing bytes; always exactly `current * PAGE_SIZE` long.
    pub data: Vec<u8>,
    /// The configured maximum, in pages, if any.
    pub maximum: Option<u32>,
    /// The present size, in pages.
    pub current: u32,
}

impl LinearMemory {
    /// The internal invariant: the byte store covers exactly the current
    /// page count, within the absolute and configured limits.
    pub open spec fn wf(&self) -> bool {
        &&& self.data@.len() == self.current as int * PAGE_SIZE as int
        &&& self.current <= MAX_PAGES
        &&& (self.maximum matches Some(mx) ==> self.current <= mx && mx <= MAX_PAGES)
    }

    /// Whether a request for `total` pages fits this memory's limits.
    pub open spec fn fits(&self, total: int) -> bool {
        &&& total <= MAX_PAGES as int
        &&& (self.maximum matches Some(mx) ==> total <= mx as int)
        &&& total * PAGE_SIZE as int <= usize::MAX as int
    }

    /// A zero-filled memory of `initial` pages.
    pub fn new(initial: u32, maximum: Option<u32>) -> (r: LinearMemory)
        requires
            initial <= MAX_PAGES,
            (maximum matches Some(mx) ==> initial <= mx && mx <= MAX_PAGES),
            initial as int * PAGE_SIZE as int <= usize::MAX as int,
        ensures
            r.wf(),
            r.current == initial,
            r.maximum == maximum,
            r.data@ == zero_bytes(initial as int * PAGE_SIZE as int),
    {
        let mut mem = LinearMemory { data: Vec::new(), maximum, current: 0 };
        mem.fill_pages(initial);
        mem.current = initial;
        mem
    }

    /// Append `add` pages of zero bytes to the byte store. (Helper for
    /// `new` and `grow`; leaves `current` untouched.)
    fn fill_pages(&mut self, add: u32)
        requires
            old(self).data@.len() + add as int * PAGE_SIZE as int <= usize::MAX as int,
        ensures
            final(self).data@ == old(self).data@ + zero_bytes(add as int * PAGE_SIZE as int),
            final(self).maximum == old(self).maximum,
            final(self).current == old(self).current,
    {
        let goal: u64 = self.data.len() as u64 + add as u64 * PAGE_SIZE as u64;
        while (self.data.len() as u64) < goal
            invariant
                old(self).data@.len() <= self.data@.len(),
                self.data@.len() <= goal,
                goal == old(self).data@.len() + add as int * PAGE_SIZE as int,
                goal <= usize::MAX as int,
                self.data@ == old(self).data@
                    + zero_bytes(self.data@.len() - old(self).data@.len()),
                self.maximum == old(self).maximum,
                self.current == old(self).current,
            decreases goal - self.data@.len(),
        {
            self.data.push(0u8);
            proof {
                assert(self.data@ == old(self).data@
                    + zero_bytes(self.data@.len() - old(self).data@.len())) by {
                    assert(self.data@ =~= old(self).data@
                        + zero_bytes(self.data@.len() - old(self).data@.len()));
                }
            }
        }
    }

    /// The present size, in pages.
    pub fn current_pages(&self) -> (r: u32)
        ensures
            r == self.current,
    {
        self.current
    }

    /// Grow by `additional_pages` whole pages of zeros. Returns the
    /// previous page count on success; on failure (the request exceeds the
    /// configured maximum or the absolute limit) fails without mutating
    /// state.
    pub fn grow(&mut self, additional_pages: u32) -> (r: Result<u32, ErrorKind>)
        requires
            old(self).wf(),
        ensures
            final(self).wf(),
            r is Ok <==> old(self).fits(old(self).current as int + additional_pages as int),
            r matches Ok(prev) ==> {
                &&& prev == old(self).current
                &&& final(self).current == old(self).current + additional_pages
                &&& final(self).maximum == old(self).maximum
                &&& final(self).data@ == old(self).data@
                    + zero_bytes(additional_pages as int * PAGE_SIZE as int)
            },
            r is Err ==> *final(self) == *old(self),
            r matches Err(e) ==> e matches ErrorKind::RuntimeError(_),
    {
        let total: u64 = self.current as u64 + additional_pages as u64;
        let within_max = match self.maximum {
            Some(mx) => total <= mx as u64,
            None => true,
        };
        if !(total <= MAX_PAGES as u64 && within_max
            && total * PAGE_SIZE as u64 <= usize::MAX as u64)
        {
            return Err(ErrorKind::RuntimeError("memory cannot grow past its maximum".to_owned()));
        }
        let prev = self.current;
        self.fill_pages(additional_pages);
        self.current = prev + additional_pages;
        Ok(prev)
    }
}

} // verus!
