//! Placement of particles in the GPU instance buffers: a ring of equally
//! sized buffers written incrementally, wrapping to the start when full.

use vstd::prelude::*;
use vstd::arithmetic::div_mod::{lemma_fundamental_div_mod, lemma_add_mod_noop, lemma_small_mod, lemma_multiply_divide_lt};

verus! {

/// Particles per buffer on the validators ring.
pub const RING_BUFFER_CAPACITY: usize = 5_000_000;
/// Buffers on the validators ring.
pub const RING_NUM_BUFFERS: usize = 4;
/// Particles per buffer on the scatter plot.
pub const SCATTER_BUFFER_CAPACITY: usize = 2_500_000;
/// Buffers on the scatter plot.
pub const SCATTER_NUM_BUFFERS: usize = 2;

/// One contiguous write: items `start .. start + len` of the upload go to
/// buffer `buffer` at item offset `offset`.
#[derive(Clone, Copy, Debug)]
pub struct UploadChunk {
    pub buffer: usize,
    pub offset: usize,
    pub start: usize,
    pub len: usize,
}

/// A chunk is non-empty, fits in its buffer, and lands where the ring's write
/// position stood when its first item came up.
pub open spec fn chunk_ok(c: UploadChunk, head: int, cap: int, n: int) -> bool {
    &&& c.len > 0
    &&& c.buffer < n
    &&& c.offset + c.len <= cap
    &&& c.buffer * cap + c.offset == (head + c.start) % (cap * n)
}

/// The chunks cover items `0 .. count` in order, without gaps or overlaps.
pub open spec fn chunks_cover(cs: Seq<UploadChunk>, count: nat) -> bool {
    &&& cs.len() == 0 ==> count == 0
    &&& cs.len() > 0 ==> cs[0].start == 0 && cs.last().start + cs.last().len == count
    &&& forall|k: int| 0 <= k < cs.len() - 1 ==> #[trigger] cs[k + 1].start == cs[k].start + cs[k].len
}

/// Furthest item offset written in buffer `b` by the chunks.
pub open spec fn max_end(cs: Seq<UploadChunk>, b: nat) -> nat
    decreases cs.len(),
{
    if cs.len() == 0 {
        0
    } else {
        let rest = max_end(cs.drop_last(), b);
        let e: nat = if cs.last().buffer == b { (cs.last().offset + cs.last().len) as nat } else { 0 };
        if rest >= e { rest } else { e }
    }
}

/// Write state of a ring of instance buffers.
pub struct InstanceRing {
    buffer_capacity: usize,
    num_buffers: usize,
    gpu_write_head: usize,
    total_instances: u32,
    buffer_counts: Vec<u32>,
}

impl InstanceRing {
    /// Items per buffer.
    pub closed spec fn cap(&self) -> nat {
        self.buffer_capacity as nat
    }

    /// Number of buffers.
    pub closed spec fn n(&self) -> nat {
        self.num_buffers as nat
    }

    /// Next item slot to write, counted over the whole ring.
    pub closed spec fn head(&self) -> nat {
        self.gpu_write_head as nat
    }

    /// Items written so far, capped at the ring's size.
    pub closed spec fn total(&self) -> nat {
        self.total_instances as nat
    }

    /// Items to draw from each buffer.
    pub closed spec fn counts(&self) -> Seq<u32> {
        self.buffer_counts@
    }

    /// Total slots in the ring.
    pub open spec fn slots(&self) -> nat {
        self.cap() * self.n()
    }

    pub closed spec fn wf(&self) -> bool {
        &&& 0 < self.buffer_capacity
        &&& 0 < self.num_buffers
        &&& self.buffer_capacity * self.num_buffers <= u32::MAX
        &&& self.gpu_write_head < self.buffer_capacity * self.num_buffers
        &&& self.total_instances <= self.buffer_capacity * self.num_buffers
        &&& self.buffer_counts@.len() == self.num_buffers
        &&& forall|b: int| 0 <= b < self.num_buffers ==> #[trigger] self.buffer_counts@[b] <= self.buffer_capacity
        &&& self.total_instances == self.buffer_capacity * self.num_buffers ==> forall|b: int|
            0 <= b < self.num_buffers ==> #[trigger] self.buffer_counts@[b] == self.buffer_capacity
    }

    /// An empty ring of `num_buffers` buffers of `buffer_capacity` items.
    pub fn new(buffer_capacity: usize, num_buffers: usize) -> (r: Self)
        requires
            0 < buffer_capacity,
            0 < num_buffers,
            buffer_capacity * num_buffers <= u32::MAX,
        ensures
            r.wf(),
            r.cap() == buffer_capacity,
            r.n() == num_buffers,
            r.head() == 0,
            r.total() == 0,
            forall|b: int| 0 <= b < num_buffers ==> #[trigger] r.counts()[b] == 0,
    {
        let mut counts: Vec<u32> = Vec::new();
        let mut i: usize = 0;
        while i < num_buffers
            invariant
                i <= num_buffers,
                counts@.len() == i,
                forall|b: int| 0 <= b < i ==> #[trigger] counts@[b] == 0,
            decreases num_buffers - i,
        {
            counts.push(0);
            i = i + 1;
        }
        assert(0 < buffer_capacity * num_buffers) by (nonlinear_arith)
            requires
                0 < buffer_capacity,
                0 < num_buffers,
        ;
        InstanceRing {
            buffer_capacity,
            num_buffers,
            gpu_write_head: 0,
            total_instances: 0,
            buffer_counts: counts,
        }
    }

    /// Items to draw from each buffer.
    pub fn buffer_counts(&self) -> (r: &Vec<u32>)
        ensures
            r@ == self.counts(),
    {
        &self.buffer_counts
    }

    /// Forgets everything written: the ring starts empty at slot 0.
    pub fn reset(&mut self)
        requires
            old(self).wf(),
        ensures
            final(self).wf(),
            final(self).cap() == old(self).cap(),
            final(self).n() == old(self).n(),
            final(self).head() == 0,
            final(self).total() == 0,
            final(self).counts().len() == old(self).n(),
            forall|b: int| 0 <= b < old(self).n() ==> #[trigger] final(self).counts()[b] == 0,
    {
        self.gpu_write_head = 0;
        self.total_instances = 0;
        let n = self.buffer_counts.len();
        let mut i: usize = 0;
        while i < n
            invariant
                i <= n,
                n == self.num_buffers,
                self.num_buffers == old(self).num_buffers,
                self.buffer_capacity == old(self).buffer_capacity,
                self.gpu_write_head == 0,
                self.total_instances == 0,
                0 < self.buffer_capacity,
                0 < self.num_buffers,
                self.buffer_capacity * self.num_buffers <= u32::MAX,
                0 < self.buffer_capacity * self.num_buffers,
                self.buffer_counts@.len() == n,
                forall|b: int| 0 <= b < i ==> #[trigger] self.buffer_counts@[b] == 0,
                forall|b: int| 0 <= b < n ==> #[trigger] self.buffer_counts@[b] <= self.buffer_capacity,
            decreases n - i,
        {
            self.buffer_counts.set(i, 0);
            i = i + 1;
        }
    }

    /// Plans the upload of `count` new items: where each run of items goes,
    /// in order. The write position advances by `count` around the ring, the
    /// written total grows by `count` up to the ring's size, each buffer's
    /// draw count covers what was written into it, and once the ring has been
    /// filled every buffer is drawn in full.
    pub fn plan_upload(&mut self, count: usize) -> (chunks: Vec<UploadChunk>)
        requires
            old(self).wf(),
            old(self).total() + count <= u32::MAX,
        ensures
            final(self).wf(),
            final(self).cap() == old(self).cap(),
            final(self).n() == old(self).n(),
            chunks_cover(chunks@, count as nat),
            forall|k: int| 0 <= k < chunks@.len() ==> chunk_ok(#[trigger] chunks@[k], old(self).head() as int, old(self).cap() as int, old(self).n() as int),
            final(self).head() == (old(self).head() + count) % (old(self).slots() as int),
            final(self).total() == if old(self).total() + count >= old(self).slots() {
                old(self).slots() as int
            } else {
                old(self).total() + count
            },
            forall|b: int| 0 <= b < old(self).n() ==> #[trigger] final(self).counts()[b] == if final(self).total()
                >= old(self).slots() {
                old(self).cap()
            } else if count == 0 {
                old(self).counts()[b] as nat
            } else if max_end(chunks@, b as nat) > old(self).counts()[b] {
                max_end(chunks@, b as nat)
            } else {
                old(self).counts()[b] as nat
            },
    {
        let mut chunks: Vec<UploadChunk> = Vec::new();
        if count == 0 {
            proof {
                lemma_small_mod(self.gpu_write_head as nat, (self.buffer_capacity * self.num_buffers) as nat);
            }
            return chunks;
        }
        let cap = self.buffer_capacity;
        let n = self.num_buffers;
        let m = cap * n;
        let ghost head0 = self.gpu_write_head as int;
        let ghost counts0 = self.buffer_counts@;
        let mut write_pos = self.gpu_write_head;
        let mut start: usize = 0;
        proof {
            lemma_small_mod(head0 as nat, m as nat);
            assert(cap <= m) by (nonlinear_arith)
                requires
                    m == cap * n,
                    0 < n,
            ;
        }
        while start < count
            invariant
                self.wf(),
                cap == self.buffer_capacity,
                n == self.num_buffers,
                m == cap * n,
                head0 == old(self).gpu_write_head,
                counts0 == old(self).buffer_counts@,
                self.gpu_write_head == old(self).gpu_write_head,
                self.total_instances == old(self).total_instances,
                start <= count,
                write_pos < m,
                write_pos == (head0 + start) % (m as int),
                chunks_cover(chunks@, start as nat),
                forall|k: int| 0 <= k < chunks@.len() ==> chunk_ok(#[trigger] chunks@[k], head0, cap as int, n as int),
                forall|b: int| 0 <= b < n ==> #[trigger] self.buffer_counts@[b] == if max_end(chunks@, b as nat) > counts0[b] {
                    max_end(chunks@, b as nat)
                } else {
                    counts0[b] as nat
                },
                self.buffer_counts@.len() == n,
                counts0.len() == n,
                cap <= m,
                forall|b: int| 0 <= b < n ==> #[trigger] self.buffer_counts@[b] <= cap,
            decreases count - start,
        {
            let b = write_pos / cap;
            let off = write_pos % cap;
            proof {
                lemma_fundamental_div_mod(write_pos as int, cap as int);
                lemma_multiply_divide_lt(write_pos as int, cap as int, n as int);
                assert(b * cap + off == write_pos) by (nonlinear_arith)
                    requires
                        write_pos == cap * b + off,
                ;
            }
            let space = cap - off;
            let remaining = count - start;
            let to_write = if remaining < space { remaining } else { space };
            let chunk = UploadChunk { buffer: b, offset: off, start, len: to_write };
            let ghost before = chunks@;
            chunks.push(chunk);
            let new_end = (off + to_write) as u32;
            proof {
                assert((off + to_write) as nat <= cap as nat);
                assert(cap <= m) by (nonlinear_arith)
                    requires
                        m == cap * n,
                        0 < n,
                ;
            }
            if self.buffer_counts[b] < new_end {
                self.buffer_counts.set(b, new_end);
            }
            proof {
                assert(chunks@.drop_last() =~= before);
                assert forall|c: int| 0 <= c < n implies #[trigger] self.buffer_counts@[c] == if max_end(chunks@, c as nat) > counts0[c] {
                    max_end(chunks@, c as nat)
                } else {
                    counts0[c] as nat
                } by {
                    assert(chunks@.last() == chunk);
                }
                assert forall|k: int| 0 <= k < chunks@.len() - 1 implies #[trigger] chunks@[k + 1].start == chunks@[k].start + chunks@[k].len by {
                    if k + 1 < before.len() {
                        assert(chunks@[k + 1] == before[k + 1]);
                        assert(chunks@[k] == before[k]);
                    } else {
                        assert(chunks@[k] == before.last());
                    }
                }
            }
            proof {
                assert(b * cap + off + to_write <= m) by (nonlinear_arith)
                    requires
                        b < n,
                        off + to_write <= cap,
                        m == cap * n,
                ;
            }
            let next = write_pos + to_write;
            write_pos = if next >= m { next - m } else { next };
            proof {
                let x = head0 + start;
                lemma_fundamental_div_mod(x, m as int);
                let q = x / (m as int);
                assert(x + to_write == q * m + next) by (nonlinear_arith)
                    requires
                        x == (m as int) * q + x % (m as int),
                        next == x % (m as int) + to_write,
                ;
                if next < m {
                    vstd::arithmetic::div_mod::lemma_fundamental_div_mod_converse_mod(x + to_write, m as int, q, next as int);
                } else {
                    assert(x + to_write == (q + 1) * m + 0) by (nonlinear_arith)
                        requires
                            x + to_write == q * m + next,
                            next == m,
                    ;
                    vstd::arithmetic::div_mod::lemma_fundamental_div_mod_converse_mod(x + to_write, m as int, q + 1, 0);
                }
            }
            start = start + to_write;
        }
        self.gpu_write_head = write_pos;
        let sum = self.total_instances as usize + count;
        self.total_instances = if sum >= m { m as u32 } else { sum as u32 };
        if self.total_instances as usize >= m {
            let mut i: usize = 0;
            while i < n
                invariant
                    i <= n,
                    n == self.num_buffers,
                    cap == self.buffer_capacity,
                    m == cap * n,
                    self.num_buffers == old(self).num_buffers,
                    self.buffer_capacity == old(self).buffer_capacity,
                    0 < cap,
                    0 < n,
                    m <= u32::MAX,
                    self.gpu_write_head < m,
                    self.gpu_write_head == write_pos,
                    self.total_instances == m,
                    cap <= m,
                    self.buffer_counts@.len() == n,
                    forall|b: int| 0 <= b < i ==> #[trigger] self.buffer_counts@[b] == cap,
                    forall|b: int| 0 <= b < n ==> #[trigger] self.buffer_counts@[b] <= cap,
                decreases n - i,
            {
                self.buffer_counts.set(i, cap as u32);
                i = i + 1;
            }
        }
        chunks
    }
}

} // verus!

verus! {

/// In chunks that cover `0 .. count` in order, some chunk holds item `j`.
proof fn lemma_find_chunk(cs: Seq<UploadChunk>, count: nat, j: nat) -> (k: int)
    requires
        chunks_cover(cs, count),
        j < count,
    ensures
        0 <= k < cs.len(),
        cs[k].start <= j < cs[k].start + cs[k].len,
    decreases cs.len(),
{
    let last = cs.len() - 1;
    if cs[last].start <= j {
        last
    } else {
        let prefix = cs.drop_last();
        assert forall|k: int| 0 <= k < prefix.len() - 1 implies #[trigger] prefix[k + 1].start == prefix[k].start
            + prefix[k].len by {
            assert(prefix[k + 1] == cs[k + 1]);
            assert(prefix[k] == cs[k]);
        }
        if prefix.len() > 0 {
            assert(cs[(last - 1) + 1].start == cs[last - 1].start + cs[last - 1].len);
        }
        lemma_find_chunk(prefix, cs[last].start as nat, j)
    }
}

/// Every item of an upload lands at the ring slot that follows the write
/// position by its place in the upload: item `j` goes to slot
/// `(head + j) mod slots`, in buffer `slot / cap` at offset `slot mod cap`.
pub proof fn law_item_lands_at_its_slot(cs: Seq<UploadChunk>, count: nat, head: nat, cap: nat, n: nat, j: nat)
    requires
        0 < cap,
        0 < n,
        chunks_cover(cs, count),
        forall|k: int| 0 <= k < cs.len() ==> chunk_ok(#[trigger] cs[k], head as int, cap as int, n as int),
        j < count,
    ensures
        exists|k: int|
            0 <= k < cs.len() && cs[k].start <= j < cs[k].start + cs[k].len && #[trigger] cs[k].buffer * cap
                + cs[k].offset + (j - cs[k].start) == ((head + j) as int) % ((cap * n) as int),
{
    let k = lemma_find_chunk(cs, count, j);
    let c = cs[k];
    assert(chunk_ok(c, head as int, cap as int, n as int));
    let m = (cap * n) as int;
    let x = head + c.start;
    let d = j - c.start;
    assert(c.buffer * cap + c.offset + d < m) by (nonlinear_arith)
        requires
            c.buffer < n,
            c.offset + c.len <= cap,
            0 <= d < c.len,
            m == cap * n,
    ;
    assert(0 < m) by (nonlinear_arith)
        requires
            0 < cap,
            0 < n,
            m == cap * n,
    ;
    lemma_fundamental_div_mod(x, m);
    let q = x / m;
    let r = x % m;
    assert(head + j == q * m + (r + d)) by (nonlinear_arith)
        requires
            x == m * q + r,
            x == head + c.start,
            d == j - c.start,
    ;
    vstd::arithmetic::div_mod::lemma_fundamental_div_mod_converse_mod((head + j) as int, m, q, r + d);
    assert(cs[k].buffer * cap + cs[k].offset + (j - cs[k].start) == ((head + j) as int) % m);
}

} // verus!
