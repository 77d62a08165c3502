//! Ghost model of the repeating-group traversal protocol.
//!
//! A group frame is opened over the enclosing cursor's limit by writing or
//! reading the 2-byte dimension header, then advanced one element at a
//! time. The executable group codecs state their `advance` contracts over
//! this model, and the laws below are proved of it once, for every group.
use vstd::prelude::*;

verus! {

/// State of one repeating-group frame: the element count and element size
/// fixed at open, the last visited index (`None` before the first
/// element), and the enclosing cursor's limit.
pub struct GroupState {
    pub count: int,
    pub index: Option<int>,
    pub limit: int,
    pub block_length: int,
}

/// Opening a group consumes the 2-byte dimension header at the current
/// limit; no element has been visited yet.
pub open spec fn spec_group_open(limit: int, count: int, block_length: int) -> GroupState {
    GroupState { count, index: None, limit: limit + 2, block_length }
}

/// The index the next advance will try to visit.
pub open spec fn spec_next_index(g: GroupState) -> int {
    match g.index {
        None => 0,
        Some(i) => i + 1,
    }
}

/// One advance step: past the last element it reports the end of the
/// sequence and leaves the state unchanged; otherwise it visits the next
/// element, reserving `block_length` bytes at the current limit.
pub open spec fn spec_group_advance(g: GroupState) -> (GroupState, Option<int>) {
    let next = spec_next_index(g);
    if next >= g.count {
        (g, None)
    } else {
        (GroupState { index: Some(next), limit: g.limit + g.block_length, ..g }, Some(next))
    }
}

/// The state after `n` advance steps.
pub open spec fn spec_group_advance_n(g: GroupState, n: nat) -> GroupState
    decreases n,
{
    if n == 0 {
        g
    } else {
        spec_group_advance(spec_group_advance_n(g, (n - 1) as nat)).0
    }
}

/// After `k` advances of a freshly opened group, `k <= count`: the first
/// `k` elements have been visited in order and the limit has grown by
/// exactly `k` element blocks past the dimension header.
pub proof fn lemma_group_advance_n_state(limit: int, count: int, block_length: int, k: int)
    requires
        0 <= k <= count,
    ensures
        ({
            let g = spec_group_advance_n(spec_group_open(limit, count, block_length), k as nat);
            &&& g.count == count
            &&& g.block_length == block_length
            &&& g.index == (if k == 0 {
                None::<int>
            } else {
                Some(k - 1)
            })
            &&& g.limit == limit + 2 + k * block_length
        }),
    decreases k,
{
    if k > 0 {
        lemma_group_advance_n_state(limit, count, block_length, k - 1);
        assert((k - 1) * block_length + block_length == k * block_length) by (nonlinear_arith);
    }
}

/// Group exhaustion: advancing a freshly opened group of `count` elements
/// succeeds `count` times with the increasing indices `0..count`; the
/// `count`-th advance reports the end of the sequence; and advancing again
/// still reports the end, with the state unchanged.
pub proof fn lemma_group_exhaustion(limit: int, count: int, block_length: int)
    requires
        0 <= count,
    ensures
        forall|k: int| 0 <= k < count ==> #[trigger] spec_group_advance(
            spec_group_advance_n(spec_group_open(limit, count, block_length), k as nat)).1
            == Some(k),
        spec_group_advance(
            spec_group_advance_n(spec_group_open(limit, count, block_length), count as nat)).1
            is None,
        ({
            let exhausted = spec_group_advance_n(
                spec_group_open(limit, count, block_length), count as nat);
            &&& spec_group_advance(exhausted).0 == exhausted
            &&& spec_group_advance(spec_group_advance(exhausted).0).1 is None
        }),
{
    assert forall|k: int| 0 <= k < count implies #[trigger] spec_group_advance(
        spec_group_advance_n(spec_group_open(limit, count, block_length), k as nat)).1
        == Some(k) by {
        lemma_group_advance_n_state(limit, count, block_length, k);
    }
    lemma_group_advance_n_state(limit, count, block_length, count);
}

/// Length accounting for one group: driving a freshly opened group to
/// exhaustion grows the limit by exactly the dimension header plus
/// `count` element blocks.
pub proof fn lemma_group_length_accounting(limit: int, count: int, block_length: int)
    requires
        0 <= count,
    ensures
        spec_group_advance_n(spec_group_open(limit, count, block_length), count as nat).limit
            == limit + (2 + count * block_length),
{
    lemma_group_advance_n_state(limit, count, block_length, count);
}

} // verus!
