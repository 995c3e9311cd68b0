//! The mapped source: walking its pages before the measurement starts.
//!
//! A fresh mapping has no physical pages behind it. Reading one byte of every
//! page forces them in, so that the first measured pass does not pay for page
//! faults. The walk below yields the offsets to read; the read itself is the
//! caller's.

use crate::arith::{
    ceil_div, lemma_ceil_div_bounds, lemma_ceil_div_step, lemma_ceil_div_unique,
    lemma_ceil_div_zero,
};
use vstd::prelude::*;

verus! {

/// Number of pages that a region of `size` bytes touches.
pub open spec fn page_count(size: int, page: int) -> int {
    ceil_div(size, page)
}

/// The offsets a walk that stands at `next` still visits: `next`,
/// `next + page`, ... as long as they lie below `size`.
pub open spec fn offsets_from(next: int, size: int, page: int) -> Seq<int> {
    Seq::new(page_count(size - next, page) as nat, |k: int| next + k * page)
}

/// The offsets to read in a region of `size` bytes: the start of each page.
pub open spec fn page_offsets(size: int, page: int) -> Seq<int> {
    offsets_from(0, size, page)
}

/// A pass over a mapped region, one page at a time.
pub struct PageWalk {
    next: usize,
    size: usize,
    page_size: usize,
}

impl PageWalk {
    /// A positive page size, and a position that has not run past the region.
    #[verifier::type_invariant]
    spec fn wf(&self) -> bool {
        self.page_size > 0 && self.next <= self.size
    }

    /// The offsets still to be visited, in order.
    pub closed spec fn view(&self) -> Seq<int> {
        offsets_from(self.next as int, self.size as int, self.page_size as int)
    }

    /// Starts a walk over `size` bytes in pages of `page_size` bytes.
    pub fn new(size: usize, page_size: usize) -> (walk: PageWalk)
        requires
            page_size > 0,
        ensures
            walk@ == page_offsets(size as int, page_size as int),
    {
        PageWalk { next: 0, size, page_size }
    }

    /// The next offset to read, or `None` when every page has been visited.
    pub fn next_offset(&mut self) -> (offset: Option<usize>)
        ensures
            match offset {
                Some(o) => old(self)@.len() > 0 && o as int == old(self)@[0] && final(self)@
                    == old(self)@.drop_first(),
                None => old(self)@.len() == 0 && *final(self) == *old(self),
            },
    {
        proof {
            use_type_invariant(&*self);
        }
        let ghost left = self.size as int - self.next as int;
        let ghost page = self.page_size as int;
        if self.next < self.size {
            let offset = self.next;
            if self.size - offset <= self.page_size {
                self.next = self.size;
                proof {
                    lemma_ceil_div_unique(left, page, 1);
                    lemma_ceil_div_zero(page);
                }
            } else {
                self.next = offset + self.page_size;
                proof {
                    lemma_ceil_div_step(left, page);
                    assert forall|k: int| 0 <= k < self@.len() implies self@[k] == old(self)@[k
                        + 1] by {
                        assert(offset + page + k * page == offset + (k + 1) * page)
                            by (nonlinear_arith);
                    }
                }
            }
            assert(self@ =~= old(self)@.drop_first());
            Some(offset)
        } else {
            proof {
                lemma_ceil_div_zero(page);
            }
            None
        }
    }
}

/// Every byte of the region lies on a page whose start the walk visits:
/// byte `b` is on page `b / page`, which begins at the offset of that index.
pub proof fn lemma_walk_covers_every_byte(size: int, page: int, b: int)
    requires
        page > 0,
        0 <= b < size,
    ensures
        0 <= b / page < page_offsets(size, page).len(),
        page_offsets(size, page)[b / page] <= b < page_offsets(size, page)[b / page] + page,
{
    let k = b / page;
    assert(0 <= k && k * page <= b < k * page + page) by (nonlinear_arith)
        requires
            page > 0,
            b >= 0,
            k == b / page,
    ;
    lemma_ceil_div_bounds(size, page);
    let m = page_count(size, page);
    assert(k < m) by (nonlinear_arith)
        requires
            page > 0,
            k * page <= b,
            b < size,
            size <= m * page,
    ;
}

} // verus!
