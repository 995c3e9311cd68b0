//! Cutting a byte view into segments of the configured size.
//!
//! Each pass hands the whole mapped view to the sink in one vectored write.
//! The view is cut into contiguous segments of the chunk size, the last one
//! shorter where the view's length is no multiple of it. The list of segments
//! is kept between passes and filled again, so that a pass allocates nothing.

use crate::arith::{ceil_div, lemma_ceil_div_bounds, lemma_ceil_div_unique, lemma_ceil_div_zero};
use vstd::prelude::*;

verus! {

/// Number of segments of a view of `len` bytes.
pub open spec fn segment_count(len: int, chunk: int) -> int {
    ceil_div(len, chunk)
}

/// Where segment `i` begins.
pub open spec fn segment_start(chunk: int, i: int) -> int {
    i * chunk
}

/// Where segment `i` ends: a chunk after its start, or at the view's end.
pub open spec fn segment_end(len: int, chunk: int, i: int) -> int {
    vstd::math::min((i + 1) * chunk, len)
}

/// The segments of `view`, in order.
pub open spec fn split(view: Seq<u8>, chunk: int) -> Seq<Seq<u8>> {
    Seq::new(
        segment_count(view.len() as int, chunk) as nat,
        |i: int| view.subrange(segment_start(chunk, i), segment_end(view.len() as int, chunk, i)),
    )
}

/// The sum of the segments' lengths.
pub open spec fn total_len(segments: Seq<Seq<u8>>) -> int
    decreases segments.len(),
{
    if segments.len() == 0 {
        0
    } else {
        total_len(segments.drop_last()) + segments.last().len()
    }
}

/// The list of segments a worker submits in one write, reused from pass to
/// pass.
pub struct WorkBuffer<'a> {
    chunk_size: usize,
    segments: Vec<&'a [u8]>,
}

impl<'a> WorkBuffer<'a> {
    /// The size of a full segment.
    pub closed spec fn spec_chunk_size(&self) -> usize {
        self.chunk_size
    }

    /// A full segment has a positive size.
    pub open spec fn wf(&self) -> bool {
        self.spec_chunk_size() > 0
    }

    /// The bytes of each segment, in order.
    pub closed spec fn view(&self) -> Seq<Seq<u8>> {
        self.segments@.map_values(|s: &[u8]| s@)
    }

    /// An empty list for segments of `chunk_size` bytes, with room for the
    /// segments of a view of `expected_len` bytes.
    pub fn new(chunk_size: usize, expected_len: usize) -> (buffer: WorkBuffer<'a>)
        requires
            chunk_size > 0,
        ensures
            buffer.wf(),
            buffer@ == Seq::<Seq<u8>>::empty(),
            buffer.spec_chunk_size() == chunk_size,
    {
        let full = expected_len / chunk_size;
        let room = if expected_len % chunk_size == 0 {
            full
        } else {
            assert(full < usize::MAX) by (nonlinear_arith)
                requires
                    full == expected_len / chunk_size,
                    expected_len % chunk_size != 0,
                    chunk_size > 0,
                    expected_len <= usize::MAX,
            ;
            full + 1
        };
        let buffer = WorkBuffer { chunk_size, segments: Vec::with_capacity(room) };
        assert(buffer@ =~= Seq::<Seq<u8>>::empty());
        buffer
    }

    /// The size of a full segment.
    #[verifier::when_used_as_spec(spec_chunk_size)]
    pub fn chunk_size(&self) -> (chunk: usize)
        ensures
            chunk == self.spec_chunk_size(),
    {
        self.chunk_size
    }

    /// Replaces the list by the segments of `view`.
    pub fn fill(&mut self, view: &'a [u8])
        requires
            old(self).wf(),
        ensures
            final(self).wf(),
            final(self)@ == split(view@, old(self).spec_chunk_size() as int),
            final(self).spec_chunk_size() == old(self).spec_chunk_size(),
    {
        let chunk = self.chunk_size;
        let len = view.len();
        let ghost c = chunk as int;
        let ghost n = len as int;
        self.segments.clear();
        let mut start: usize = 0;
        proof {
            assert(0 * c == 0) by (nonlinear_arith);
        }
        while start < len
            invariant
                self.chunk_size == chunk,
                chunk > 0,
                c == chunk as int,
                n == len as int,
                len == view@.len(),
                start <= len,
                start == vstd::math::min(self.segments@.len() * c, n),
                self.segments@.len() > 0 ==> (self.segments@.len() - 1) * c < n,
                forall|i: int|
                    0 <= i < self.segments@.len() ==> (#[trigger] self.segments@[i])@
                        == view@.subrange(segment_start(c, i), segment_end(n, c, i)),
            decreases len - start,
        {
            let ghost i = self.segments@.len() as int;
            let end = if len - start <= chunk {
                len
            } else {
                start + chunk
            };
            proof {
                assert((i + 1) * c == i * c + c) by (nonlinear_arith);
            }
            let segment = &view[start..end];
            self.segments.push(segment);
            start = end;
        }
        proof {
            let k = self.segments@.len() as int;
            if k == 0 {
                lemma_ceil_div_zero(c);
            } else {
                lemma_ceil_div_unique(n, c, k);
            }
            assert(self@ =~= split(view@, c));
        }
    }

    /// Number of segments in the list.
    pub fn len(&self) -> (count: usize)
        ensures
            count == self@.len(),
    {
        self.segments.len()
    }

    /// The segments, in the order in which they are to be written.
    pub fn segments(&self) -> (segments: &Vec<&'a [u8]>)
        ensures
            segments@.len() == self@.len(),
            forall|i: int| 0 <= i < segments@.len() ==> (#[trigger] segments@[i])@ == self@[i],
    {
        &self.segments
    }
}

/// Shape of a split: a view of `n` bytes gives `n / c` rounded up segments;
/// segment `i` covers the bytes from `i * c` up to `(i + 1) * c` or the end
/// of the view; every segment but the last has exactly `c` bytes, and the
/// last has at least one and at most `c`.
pub proof fn lemma_split_shape(view: Seq<u8>, chunk: int)
    requires
        chunk > 0,
    ensures
        split(view, chunk).len() == ceil_div(view.len() as int, chunk),
        forall|i: int|
            0 <= i < split(view, chunk).len() - 1 ==> (#[trigger] split(view, chunk)[i]).len()
                == chunk,
        split(view, chunk).len() > 0 ==> 0 < split(view, chunk).last().len() <= chunk,
        forall|i: int|
            0 <= i < split(view, chunk).len() ==> 0 <= #[trigger] segment_start(chunk, i)
                < segment_end(view.len() as int, chunk, i) <= view.len(),
{
    let n = view.len() as int;
    let m = ceil_div(n, chunk);
    lemma_ceil_div_bounds(n, chunk);
    let segments = split(view, chunk);
    assert forall|i: int| 0 <= i < m implies 0 <= #[trigger] segment_start(chunk, i)
        < segment_end(n, chunk, i) <= n by {
        lemma_segment_bounds(n, chunk, i);
    }
    assert forall|i: int| 0 <= i < m - 1 implies (#[trigger] segments[i]).len() == chunk by {
        lemma_segment_bounds(n, chunk, i);
    }
    if m > 0 {
        lemma_segment_bounds(n, chunk, m - 1);
        assert(segments.last() == segments[m - 1]);
    }
}

/// Segment `i` of a view of `n` bytes is not empty and lies inside the
/// view; it is a full chunk unless it is the last.
proof fn lemma_segment_bounds(n: int, chunk: int, i: int)
    requires
        chunk > 0,
        n >= 0,
        0 <= i < ceil_div(n, chunk),
    ensures
        0 <= segment_start(chunk, i) < segment_end(n, chunk, i) <= n,
        segment_end(n, chunk, i) - segment_start(chunk, i) <= chunk,
        i < ceil_div(n, chunk) - 1 ==> segment_end(n, chunk, i) - segment_start(chunk, i)
            == chunk,
{
    let m = ceil_div(n, chunk);
    lemma_ceil_div_bounds(n, chunk);
    if n == 0 {
        lemma_ceil_div_zero(chunk);
    }
    assert(0 <= i * chunk <= (m - 1) * chunk && (i + 1) * chunk == i * chunk + chunk && (i < m
        - 1 ==> (i + 1) * chunk <= (m - 1) * chunk)) by (nonlinear_arith)
        requires
            0 <= i < m,
            chunk > 0,
    ;
}

/// Laid end to end, the first `k` segments are the first `k * c` bytes of
/// the view, or all of it.
proof fn lemma_split_prefix(view: Seq<u8>, chunk: int, k: int)
    requires
        chunk > 0,
        0 <= k <= split(view, chunk).len(),
    ensures
        split(view, chunk).take(k).flatten() == view.take(
            vstd::math::min(k * chunk, view.len() as int),
        ),
        total_len(split(view, chunk).take(k)) == vstd::math::min(k * chunk, view.len() as int),
    decreases k,
{
    let n = view.len() as int;
    let segments = split(view, chunk);
    lemma_split_shape(view, chunk);
    if k == 0 {
        assert(0 * chunk == 0) by (nonlinear_arith);
        assert(segments.take(0).flatten() =~= view.take(0));
    } else {
        lemma_split_prefix(view, chunk, k - 1);
        let before = segments.take(k - 1);
        let now = segments.take(k);
        assert(now =~= before.push(segments[k - 1]));
        assert(now.drop_last() =~= before);
        before.lemma_flatten_push(segments[k - 1]);
        assert((k - 1 + 1) * chunk == k * chunk && (k - 1) * chunk == k * chunk - chunk)
            by (nonlinear_arith);
        assert(segment_start(chunk, k - 1) < segment_end(n, chunk, k - 1));
        assert(now.flatten() =~= view.take(vstd::math::min(k * chunk, n)));
    }
}

/// Nothing is lost and nothing added: the segments' lengths sum to the
/// view's length, and laid end to end the segments are the view.
pub proof fn lemma_split_covers(view: Seq<u8>, chunk: int)
    requires
        chunk > 0,
    ensures
        total_len(split(view, chunk)) == view.len(),
        split(view, chunk).flatten() == view,
{
    let n = view.len() as int;
    let segments = split(view, chunk);
    let m = segments.len() as int;
    lemma_ceil_div_bounds(n, chunk);
    lemma_split_prefix(view, chunk, m);
    assert(segments.take(m) =~= segments);
    assert(view.take(n) =~= view);
}

} // verus!
