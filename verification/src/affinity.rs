//! Thread-affinity planning: range normalization, mask construction and
//! mask read-back over a fixed-capacity bitmask model.

use vstd::prelude::*;

verus! {

/// Capacity of the OS affinity bitmask, in logical CPU ids.
pub const MASK_CAPACITY: usize = 1024;

/// A fixed-capacity bitset of logical CPU ids: the model of the per-thread
/// scheduling affinity mask the kernel holds.
pub struct AffinityMask {
    bits: Vec<bool>,
}

impl View for AffinityMask {
    type V = Seq<bool>;

    closed spec fn view(&self) -> Seq<bool> {
        self.bits@
    }
}

impl AffinityMask {
    /// The mask spans exactly the fixed capacity.
    pub open spec fn wf(&self) -> bool {
        self@.len() == MASK_CAPACITY
    }

    /// An all-clear mask: no CPU id enabled.
    pub fn new() -> (r: AffinityMask)
        ensures
            r.wf(),
            forall|j: int| 0 <= j < MASK_CAPACITY ==> !r@[j],
    {
        let mut bits: Vec<bool> = Vec::new();
        let mut i: usize = 0;
        while i < MASK_CAPACITY
            invariant
                i <= MASK_CAPACITY,
                bits@.len() == i,
                forall|j: int| 0 <= j < i ==> !bits@[j],
            decreases MASK_CAPACITY - i,
        {
            bits.push(false);
            i = i + 1;
        }
        AffinityMask { bits }
    }

    /// Enables one CPU id in the mask.
    pub fn set_id(&mut self, id: usize)
        requires
            old(self).wf(),
            id < MASK_CAPACITY,
        ensures
            final(self).wf(),
            final(self)@ == old(self)@.update(id as int, true),
    {
        self.bits[id] = true;
    }

    /// Whether one CPU id is enabled in the mask.
    pub fn test_id(&self, id: usize) -> (r: bool)
        requires
            self.wf(),
            id < MASK_CAPACITY,
        ensures
            r == self@[id as int],
    {
        self.bits[id]
    }
}

/// The ascending sequence of enabled CPU ids among indices below `n`.
pub open spec fn ids_below(bits: Seq<bool>, n: int) -> Seq<usize>
    decreases n,
{
    if n <= 0 {
        Seq::empty()
    } else if bits[n - 1] {
        ids_below(bits, n - 1).push((n - 1) as usize)
    } else {
        ids_below(bits, n - 1)
    }
}

/// The ascending sequence of all enabled CPU ids of a mask.
pub open spec fn ids_spec(bits: Seq<bool>) -> Seq<usize> {
    ids_below(bits, bits.len() as int)
}

/// Reads back an affinity mask as the ascending list of enabled CPU ids,
/// scanning the full fixed capacity.
pub fn get_cpu_ids(mask: &AffinityMask) -> (r: Vec<usize>)
    requires
        mask.wf(),
    ensures
        r@ == ids_spec(mask@),
{
    let mut r: Vec<usize> = Vec::new();
    let mut i: usize = 0;
    while i < MASK_CAPACITY
        invariant
            mask.wf(),
            i <= MASK_CAPACITY,
            r@ == ids_below(mask@, i as int),
        decreases MASK_CAPACITY - i,
    {
        if mask.test_id(i) {
            r.push(i);
        }
        i = i + 1;
    }
    r
}

/// Builds the mask that enables exactly the inclusive range `[start, end]`.
pub fn mask_for_range(start: usize, end: usize) -> (r: AffinityMask)
    requires
        start <= end < MASK_CAPACITY,
    ensures
        r.wf(),
        forall|j: int| 0 <= j < MASK_CAPACITY ==> (r@[j] <==> start <= j <= end),
{
    let mut m = AffinityMask::new();
    let mut i: usize = start;
    while i <= end
        invariant
            m.wf(),
            start <= i <= end + 1,
            end < MASK_CAPACITY,
            forall|j: int| 0 <= j < MASK_CAPACITY ==> (m@[j] <==> start <= j < i),
        decreases end + 1 - i,
    {
        m.set_id(i);
        i = i + 1;
    }
    m
}

/// The start of a requested range after normalization: reset to zero when
/// the request is inverted or starts at or beyond the limit.
pub open spec fn norm_start(start: int, end: int, limit: int) -> int {
    if start > end || start >= limit {
        0
    } else {
        start
    }
}

/// The end of a requested range after normalization: clamped to the last id
/// below the limit.
pub open spec fn norm_end(end: int, limit: int) -> int {
    if end >= limit {
        limit - 1
    } else {
        end
    }
}

/// Normalizes a requested inclusive bind range against the logical-CPU
/// limit. An inverted or out-of-range start resets to zero; an end at or
/// beyond the limit clamps to `limit - 1`. The result is always a
/// well-ordered range below the limit.
pub fn normalize_range(start: usize, end: usize, limit: usize) -> (r: (usize, usize))
    requires
        1 <= limit,
    ensures
        r.0 == norm_start(start as int, end as int, limit as int),
        r.1 == norm_end(end as int, limit as int),
        r.0 <= r.1 < limit,
{
    let s = if start > end || start >= limit {
        0
    } else {
        start
    };
    let e = if end >= limit {
        limit - 1
    } else {
        end
    };
    (s, e)
}

/// The outcome of planning a bind: the normalized inclusive range and the
/// affinity mask that enables exactly that range.
pub struct BindPlan {
    /// Normalized first CPU id of the range.
    pub start: usize,
    /// Normalized last CPU id of the range.
    pub end: usize,
    /// Mask enabling exactly `[start, end]`.
    pub mask: AffinityMask,
}

/// Plans a bind of the calling thread to `[start, end]`, normalized against
/// an explicit logical-CPU limit.
pub fn bind_cpu_ids_with_limit(start: usize, end: usize, limit: usize) -> (r: BindPlan)
    requires
        1 <= limit <= MASK_CAPACITY,
    ensures
        r.start == norm_start(start as int, end as int, limit as int),
        r.end == norm_end(end as int, limit as int),
        r.start <= r.end < limit,
        r.mask.wf(),
        forall|j: int| 0 <= j < MASK_CAPACITY ==> (r.mask@[j] <==> r.start <= j <= r.end),
{
    let (s, e) = normalize_range(start, end, limit);
    let mask = mask_for_range(s, e);
    BindPlan { start: s, end: e, mask }
}

/// Relies on num_cpus::get_physical: the host's physical core count,
/// documented to always be at least one.
#[verifier::external_body]
fn physical_core_count() -> (r: usize)
    ensures
        1 <= r,
{
    num_cpus::get_physical()
}

/// Plans a bind of the calling thread to `[start, end]`, normalized against
/// twice the host's reported physical core count (capped at the mask
/// capacity). The embedding program applies the resulting mask through the
/// OS scheduling interface.
pub fn bind_cpu_ids(start: usize, end: usize) -> (r: BindPlan)
    ensures
        r.mask.wf(),
        r.start <= r.end < MASK_CAPACITY,
        forall|j: int| 0 <= j < MASK_CAPACITY ==> (r.mask@[j] <==> r.start <= j <= r.end),
        exists|limit: int|
            #![auto]
            2 <= limit <= MASK_CAPACITY && r.start == norm_start(start as int, end as int, limit)
                && r.end == norm_end(end as int, limit),
{
    let n = physical_core_count();
    let limit: usize = if n >= MASK_CAPACITY / 2 {
        MASK_CAPACITY
    } else {
        n * 2
    };
    let plan = bind_cpu_ids_with_limit(start, end, limit);
    proof {
        assert(2 <= limit as int <= MASK_CAPACITY && plan.start == norm_start(
            start as int,
            end as int,
            limit as int,
        ) && plan.end == norm_end(end as int, limit as int));
    }
    plan
}

/// Turns the outcome of an affinity query into the caller-visible list:
/// `None` stands for a failed query and reads as an empty list, never as an
/// error.
pub fn affinity_query_ids(mask: &Option<AffinityMask>) -> (r: Vec<usize>)
    requires
        match mask {
            Some(m) => m.wf(),
            None => true,
        },
    ensures
        r@ == match mask {
            None => Seq::<usize>::empty(),
            Some(m) => ids_spec(m@),
        },
{
    match mask {
        None => Vec::new(),
        Some(m) => get_cpu_ids(m),
    }
}

/// The consecutive ascending sequence `start, start + 1, ..., start + len - 1`.
pub open spec fn consecutive(start: int, len: nat) -> Seq<usize> {
    Seq::new(len, |k: int| (start + k) as usize)
}

/// Scanning a prefix of a mask that enables exactly `[start, end]` yields
/// the consecutive ids of that range, as far as the prefix reaches.
proof fn lemma_ids_below_range(bits: Seq<bool>, start: int, end: int, n: int)
    requires
        0 <= start <= end < bits.len(),
        0 <= n <= bits.len(),
        forall|j: int| 0 <= j < bits.len() ==> (bits[j] <==> start <= j <= end),
    ensures
        n <= start ==> ids_below(bits, n) == Seq::<usize>::empty(),
        start < n <= end + 1 ==> ids_below(bits, n) == consecutive(start, (n - start) as nat),
        n > end + 1 ==> ids_below(bits, n) == consecutive(start, (end + 1 - start) as nat),
    decreases n,
{
    if n > 0 {
        lemma_ids_below_range(bits, start, end, n - 1);
        if n <= start {
            assert(!bits[n - 1]);
        } else if n == start + 1 {
            assert(bits[n - 1]);
            assert(ids_below(bits, n) =~= consecutive(start, 1));
        } else if n <= end + 1 {
            assert(bits[n - 1]);
            assert(ids_below(bits, n) =~= consecutive(start, (n - start) as nat));
        } else {
            assert(!bits[n - 1]);
        }
    }
}

/// After a bind of `[start, end]` whose requested range already lies within
/// the limit, reading back the mask yields exactly the ascending sequence
/// `start, start + 1, ..., end`.
pub proof fn lemma_bind_then_list(bits: Seq<bool>, start: usize, end: usize, limit: usize)
    requires
        bits.len() == MASK_CAPACITY,
        start <= end,
        end < limit,
        limit <= MASK_CAPACITY,
        forall|j: int|
            0 <= j < MASK_CAPACITY ==> (bits[j] <==> norm_start(start as int, end as int, limit as int)
                <= j <= norm_end(end as int, limit as int)),
    ensures
        ids_spec(bits) == consecutive(start as int, (end - start + 1) as nat),
{
    assert(norm_start(start as int, end as int, limit as int) == start as int);
    assert(norm_end(end as int, limit as int) == end as int);
    lemma_ids_below_range(bits, start as int, end as int, bits.len() as int);
}

/// Reading the affinity list is a pure function of the mask: two reads with
/// no intervening bind see the same mask and return identical sequences.
pub proof fn lemma_read_idempotent(first: AffinityMask, second: AffinityMask)
    requires
        first@ == second@,
    ensures
        ids_spec(first@) == ids_spec(second@),
{
}

} // verus!
