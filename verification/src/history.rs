//! What holds of everything that one generator issues over its life.
//!
//! A life is told as the states that the generator went through and, between
//! each two of them, what the call in between returned: the identifiers of a
//! batch, or nothing where the call failed. Calls come in the order in which
//! they held the generator; since every call holds it exclusively from start
//! to end, there is such an order however many callers there are.

use vstd::prelude::*;
use crate::generator::{is_fresh, minted, owns, GeneratorState};
use crate::layout::{
    datacenter_of,
    lemma_order_is_time_then_sequence,
    lemma_read_then_pack,
    pack,
    sequence_of,
    timestamp_of,
    worker_of,
};

verus! {

/// One call: a failed call returns nothing and leaves the state as it was, any
/// other call issues what it returns.
pub open spec fn call(pre: GeneratorState, ids: Seq<i64>, post: GeneratorState) -> bool {
    if ids.len() == 0 {
        post == pre
    } else {
        minted(pre, ids, post)
    }
}

/// A life of one generator: `outputs[k]` is what the call between
/// `states[k]` and `states[k + 1]` returned.
pub open spec fn life(states: Seq<GeneratorState>, outputs: Seq<Seq<i64>>) -> bool {
    &&& states.len() == outputs.len() + 1
    &&& states[0].wf()
    &&& forall|k: int| 0 <= k < outputs.len() ==> call(states[k], #[trigger] outputs[k], states[k + 1])
}

/// `(k, i)` names an identifier of the life: the one at place `i` of call `k`.
pub open spec fn names(outputs: Seq<Seq<i64>>, k: int, i: int) -> bool {
    0 <= k < outputs.len() && 0 <= i < outputs[k].len()
}

/// A batch leaves the generator well formed, with its coordinate and epoch,
/// and remembering an identifier that is at least as large as each of the
/// batch.
pub proof fn lemma_batch_advances(pre: GeneratorState, ids: Seq<i64>, post: GeneratorState)
    requires
        pre.wf(),
        minted(pre, ids, post),
    ensures
        post.wf(),
        post.coordinate == pre.coordinate,
        post.epoch_ms == pre.epoch_ms,
        post.last_id == Some(ids.last()),
        forall|i: int| 0 <= i < ids.len() ==> 0 < #[trigger] ids[i] <= ids.last(),
        forall|i: int| 0 <= i < ids.len() ==> is_fresh(pre.last_id, #[trigger] ids[i] as int),
{
    assert forall|i: int| 0 <= i < ids.len() implies 0 < #[trigger] ids[i] <= ids.last() && is_fresh(
        pre.last_id,
        ids[i] as int,
    ) by {
        if 0 < i {
            assert(ids[0] < ids[i]);
        }
        if i < ids.len() - 1 {
            assert(ids[i] < ids[ids.len() - 1]);
        }
    }
    assert(owns(pre.coordinate, ids[ids.len() - 1] as int));
}

/// Within the pair of time and sequence number, a batch moves the generator
/// forward: the last identifier it remembers has a later millisecond than
/// the one before the batch, or the same millisecond and a larger sequence
/// number.
pub proof fn lemma_time_and_sequence_advance(pre: GeneratorState, ids: Seq<i64>, post: GeneratorState)
    requires
        pre.wf(),
        pre.last_id is Some,
        minted(pre, ids, post),
    ensures
        pre.last_timestamp_ms()->0 < post.last_timestamp_ms()->0 || (pre.last_timestamp_ms()->0
            == post.last_timestamp_ms()->0 && pre.sequence() < post.sequence()),
{
    lemma_batch_advances(pre, ids, post);
    let before = pre.last_id->0;
    let after = ids.last();
    assert(is_fresh(pre.last_id, after as int));
    assert(owns(pre.coordinate, after as int));
    lemma_order_is_time_then_sequence(before as int, after as int);
}

/// The place of an identifier among those of its coordinate: milliseconds
/// first, sequence numbers within a millisecond.
pub open spec fn slot(id: int) -> int {
    timestamp_of(id) * 4096 + sequence_of(id)
}

/// Within a batch, an identifier issued `j - i` places after another lies at
/// least that many slots after it.
pub proof fn lemma_batch_takes_a_slot_each(pre: GeneratorState, ids: Seq<i64>, post: GeneratorState, i: int, j: int)
    requires
        pre.wf(),
        minted(pre, ids, post),
        0 <= i <= j < ids.len(),
    ensures
        slot(ids[j] as int) - slot(ids[i] as int) >= j - i,
    decreases j - i,
{
    if i < j {
        lemma_batch_takes_a_slot_each(pre, ids, post, i, j - 1);
        let a = ids[j - 1] as int;
        let b = ids[j] as int;
        assert(ids[j - 1] < ids[j]);
        assert(owns(pre.coordinate, a));
        assert(owns(pre.coordinate, b));
        lemma_order_is_time_then_sequence(a, b);
        lemma_read_then_pack(a);
        lemma_read_then_pack(b);
    }
}

/// No millisecond holds more than 4096 identifiers of one generator: a batch
/// of `n` identifiers ends at least `(n - 1) / 4096` milliseconds after it
/// began.
pub proof fn lemma_batch_spans_its_milliseconds(pre: GeneratorState, ids: Seq<i64>, post: GeneratorState)
    requires
        pre.wf(),
        minted(pre, ids, post),
    ensures
        timestamp_of(ids.last() as int) - timestamp_of(ids.first() as int) >= (ids.len() - 1) / 4096,
{
    let n = ids.len() as int;
    lemma_batch_takes_a_slot_each(pre, ids, post, 0, n - 1);
    assert(owns(pre.coordinate, ids[0] as int));
    assert(owns(pre.coordinate, ids[n - 1] as int));
    lemma_read_then_pack(ids[0] as int);
    lemma_read_then_pack(ids[n - 1] as int);
}

/// Every state of a life is well formed and holds the coordinate of the
/// first, and remembers an identifier at least as large as everything issued
/// before it.
pub proof fn lemma_life_keeps_order(states: Seq<GeneratorState>, outputs: Seq<Seq<i64>>, n: int)
    requires
        life(states, outputs),
        0 <= n <= outputs.len(),
    ensures
        states[n].wf(),
        states[n].coordinate == states[0].coordinate,
        states[n].epoch_ms == states[0].epoch_ms,
        forall|k: int, i: int|
            0 <= k < n && 0 <= i < outputs[k].len() ==> states[n].last_id is Some && #[trigger] outputs[k][i]
                <= states[n].last_id->0,
    decreases n,
{
    if n > 0 {
        lemma_life_keeps_order(states, outputs, n - 1);
        let pre = states[n - 1];
        let ids = outputs[n - 1];
        let post = states[n];
        assert(call(pre, ids, post));
        if ids.len() > 0 {
            lemma_batch_advances(pre, ids, post);
            assert forall|k: int, i: int| 0 <= k < n && 0 <= i < outputs[k].len() implies states[n].last_id
                is Some && #[trigger] outputs[k][i] <= states[n].last_id->0 by {
                if k < n - 1 {
                    assert(outputs[k][i] <= pre.last_id->0);
                    assert(is_fresh(pre.last_id, ids.last() as int));
                } else {
                    assert(ids[i] <= ids.last());
                }
            }
        }
    }
}

/// Over a life the pair of time and sequence number never steps back: from
/// any state that remembers an identifier to any later state, the remembered
/// millisecond does not decrease, and where it stays the sequence number does
/// not decrease.
pub proof fn lemma_life_never_steps_back(states: Seq<GeneratorState>, outputs: Seq<Seq<i64>>, m: int, n: int)
    requires
        life(states, outputs),
        0 <= m <= n <= outputs.len(),
        states[m].last_id is Some,
    ensures
        states[n].last_id is Some,
        states[m].last_id->0 <= states[n].last_id->0,
        states[m].last_timestamp_ms()->0 < states[n].last_timestamp_ms()->0 || (states[m].last_timestamp_ms()->0
            == states[n].last_timestamp_ms()->0 && states[m].sequence() <= states[n].sequence()),
    decreases n - m,
{
    lemma_life_keeps_order(states, outputs, m);
    lemma_life_keeps_order(states, outputs, n);
    let from = states[m].last_id->0;
    if m < n {
        lemma_life_never_steps_back(states, outputs, m, n - 1);
        let pre = states[n - 1];
        let ids = outputs[n - 1];
        assert(call(pre, ids, states[n]));
        lemma_life_keeps_order(states, outputs, n - 1);
        if ids.len() > 0 {
            lemma_batch_advances(pre, ids, states[n]);
            assert(is_fresh(pre.last_id, ids.last() as int));
        }
    }
    let to = states[n].last_id->0;
    assert(owns(states[m].coordinate, from as int));
    assert(owns(states[n].coordinate, to as int));
    if from < to {
        lemma_order_is_time_then_sequence(from as int, to as int);
    }
}

/// Every identifier of a life is positive and carries the coordinate of the
/// generator: its datacenter and worker fields read back as configured, its
/// other two fields fit their widths, and the four fields make it up again.
pub proof fn lemma_issued_carries_coordinate(
    states: Seq<GeneratorState>,
    outputs: Seq<Seq<i64>>,
    k: int,
    i: int,
)
    requires
        life(states, outputs),
        names(outputs, k, i),
    ensures
        0 < outputs[k][i],
        datacenter_of(outputs[k][i] as int) == states[0].coordinate.datacenter(),
        worker_of(outputs[k][i] as int) == states[0].coordinate.worker(),
        0 <= timestamp_of(outputs[k][i] as int) <= crate::layout::MAX_TIMESTAMP_MS,
        0 <= sequence_of(outputs[k][i] as int) <= crate::layout::MAX_SEQUENCE,
        pack(
            timestamp_of(outputs[k][i] as int),
            states[0].coordinate.datacenter() as int,
            states[0].coordinate.worker() as int,
            sequence_of(outputs[k][i] as int),
        ) == outputs[k][i],
{
    lemma_life_keeps_order(states, outputs, k);
    assert(call(states[k], outputs[k], states[k + 1]));
    lemma_batch_advances(states[k], outputs[k], states[k + 1]);
    assert(owns(states[k].coordinate, outputs[k][i] as int));
    lemma_read_then_pack(outputs[k][i] as int);
}

/// Of two identifiers of a life, the one issued later is the larger: later
/// within one batch, or in a later call.
pub proof fn lemma_issued_in_increasing_order(
    states: Seq<GeneratorState>,
    outputs: Seq<Seq<i64>>,
    k1: int,
    i1: int,
    k2: int,
    i2: int,
)
    requires
        life(states, outputs),
        names(outputs, k1, i1),
        names(outputs, k2, i2),
        k1 < k2 || (k1 == k2 && i1 < i2),
    ensures
        outputs[k1][i1] < outputs[k2][i2],
{
    assert(call(states[k2], outputs[k2], states[k2 + 1]));
    if k1 < k2 {
        lemma_life_keeps_order(states, outputs, k2);
        lemma_batch_advances(states[k2], outputs[k2], states[k2 + 1]);
        assert(outputs[k1][i1] <= states[k2].last_id->0);
        assert(is_fresh(states[k2].last_id, outputs[k2][i2] as int));
    }
}

/// No identifier is issued twice in a life.
pub proof fn lemma_issued_once(
    states: Seq<GeneratorState>,
    outputs: Seq<Seq<i64>>,
    k1: int,
    i1: int,
    k2: int,
    i2: int,
)
    requires
        life(states, outputs),
        names(outputs, k1, i1),
        names(outputs, k2, i2),
        k1 != k2 || i1 != i2,
    ensures
        outputs[k1][i1] != outputs[k2][i2],
{
    if k1 < k2 || (k1 == k2 && i1 < i2) {
        lemma_issued_in_increasing_order(states, outputs, k1, i1, k2, i2);
    } else {
        lemma_issued_in_increasing_order(states, outputs, k2, i2, k1, i1);
    }
}

/// A batch is issued in one piece: whatever another call of the same life
/// issued lies below the whole batch or above the whole batch, never between
/// two of its identifiers.
pub proof fn lemma_batch_is_not_interleaved(
    states: Seq<GeneratorState>,
    outputs: Seq<Seq<i64>>,
    batch: int,
    other: int,
    i: int,
)
    requires
        life(states, outputs),
        names(outputs, other, i),
        0 <= batch < outputs.len(),
        outputs[batch].len() > 0,
        other != batch,
    ensures
        other < batch ==> outputs[other][i] < outputs[batch].first(),
        other > batch ==> outputs[batch].last() < outputs[other][i],
{
    if other < batch {
        lemma_issued_in_increasing_order(states, outputs, other, i, batch, 0);
    } else {
        lemma_issued_in_increasing_order(states, outputs, batch, outputs[batch].len() - 1, other, i);
    }
}

/// Generators of different coordinates never issue the same identifier,
/// whatever their clocks read: their lives need not know of each other.
pub proof fn lemma_coordinates_keep_generators_apart(
    states: Seq<GeneratorState>,
    outputs: Seq<Seq<i64>>,
    k: int,
    i: int,
    other_states: Seq<GeneratorState>,
    other_outputs: Seq<Seq<i64>>,
    other_k: int,
    other_i: int,
)
    requires
        life(states, outputs),
        life(other_states, other_outputs),
        names(outputs, k, i),
        names(other_outputs, other_k, other_i),
        states[0].coordinate.datacenter() != other_states[0].coordinate.datacenter()
            || states[0].coordinate.worker() != other_states[0].coordinate.worker(),
    ensures
        outputs[k][i] != other_outputs[other_k][other_i],
{
    lemma_issued_carries_coordinate(states, outputs, k, i);
    lemma_issued_carries_coordinate(other_states, other_outputs, other_k, other_i);
}

} // verus!
