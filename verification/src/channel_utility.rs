//! Connecting multiple receivers to the same sender.
//!
//! The fan-in spawns one forwarding task per source (spawning is the
//! shell's business); each task repeats `forward_turn` until it reports
//! that a side is gone. One task per source keeps each source's own order;
//! how the sources interleave is left to the scheduler. A source
//! disconnecting only ends its own task — the destination stays open until
//! every cloned sender is dropped.

use vstd::prelude::*;
use std::sync::mpsc::Receiver;
use std::sync::mpsc::Sender;
use crate::minuterie::Heartbeat;
use crate::runtime::recv_blocking;
use crate::runtime::send_value;

verus! {

/// One turn of a forwarding task: take the source's next heartbeat and
/// pass it, unchanged, to the destination. `true` asks for another turn;
/// `false` reports that the source disconnected (not an error — the other
/// sources continue) or that the destination is gone.
pub fn forward_turn(rx: &Receiver<Heartbeat>, tx: &Sender<Heartbeat>) -> (r: bool) {
    match recv_blocking(rx) {
        Some(heartbeat) => send_value(tx, heartbeat).is_ok(),
        None => false,
    }
}

/// What the fan-in can deliver: `merged` is an interleaving of the
/// `sources` — item by item, each next merged item is the next unconsumed
/// item of some source. Which source goes next is the scheduler's choice
/// and stays unspecified.
pub open spec fn is_interleaving(sources: Seq<Seq<Heartbeat>>, merged: Seq<Heartbeat>) -> bool
    decreases merged.len(),
{
    if merged.len() == 0 {
        forall|i: int| 0 <= i < sources.len() ==> (#[trigger] sources[i]).len() == 0
    } else {
        exists|i: int|
            {
                &&& 0 <= i < sources.len()
                &&& (#[trigger] sources[i]).len() > 0
                &&& merged[0] == sources[i][0]
                &&& is_interleaving(
                    sources.update(i, sources[i].drop_first()),
                    merged.drop_first(),
                )
            }
    }
}

/// The items all sources hold together.
pub open spec fn total_len(sources: Seq<Seq<Heartbeat>>) -> nat
    decreases sources.len(),
{
    if sources.len() == 0 {
        0
    } else {
        sources[0].len() + total_len(sources.drop_first())
    }
}

/// `sub` occurs in `sup` in order (not necessarily contiguously).
pub open spec fn is_subsequence(sub: Seq<Heartbeat>, sup: Seq<Heartbeat>) -> bool
    decreases sup.len(), sub.len(),
{
    if sub.len() == 0 {
        true
    } else if sup.len() == 0 {
        false
    } else {
        ||| (sub[0] == sup[0] && is_subsequence(sub.drop_first(), sup.drop_first()))
        ||| is_subsequence(sub, sup.drop_first())
    }
}

proof fn lemma_total_len_when_all_empty(sources: Seq<Seq<Heartbeat>>)
    requires
        forall|i: int| 0 <= i < sources.len() ==> (#[trigger] sources[i]).len() == 0,
    ensures
        total_len(sources) == 0,
    decreases sources.len(),
{
    if sources.len() > 0 {
        lemma_total_len_when_all_empty(sources.drop_first());
    }
}

proof fn lemma_total_len_after_take(sources: Seq<Seq<Heartbeat>>, i: int)
    requires
        0 <= i < sources.len(),
        sources[i].len() > 0,
    ensures
        total_len(sources.update(i, sources[i].drop_first())) + 1 == total_len(sources),
    decreases sources.len(),
{
    let taken = sources.update(i, sources[i].drop_first());
    if i == 0 {
        assert(taken.drop_first() =~= sources.drop_first());
    } else {
        assert(taken[0] == sources[0]);
        assert(taken.drop_first() =~= sources.drop_first().update(
            i - 1,
            sources.drop_first()[i - 1].drop_first(),
        ));
        lemma_total_len_after_take(sources.drop_first(), i - 1);
    }
}

/// Law: an interleaving of N sources carries exactly as many items as the
/// sources do together (for N sources of k items each: N times k).
pub proof fn lemma_interleaving_length(sources: Seq<Seq<Heartbeat>>, merged: Seq<Heartbeat>)
    requires
        is_interleaving(sources, merged),
    ensures
        merged.len() == total_len(sources),
    decreases merged.len(),
{
    if merged.len() == 0 {
        lemma_total_len_when_all_empty(sources);
    } else {
        let i = choose|i: int|
            {
                &&& 0 <= i < sources.len()
                &&& (#[trigger] sources[i]).len() > 0
                &&& merged[0] == sources[i][0]
                &&& is_interleaving(
                    sources.update(i, sources[i].drop_first()),
                    merged.drop_first(),
                )
            };
        lemma_interleaving_length(sources.update(i, sources[i].drop_first()), merged.drop_first());
        lemma_total_len_after_take(sources, i);
    }
}

/// Law: an interleaving keeps each source's own order — every source reads
/// as a subsequence of the merged stream.
pub proof fn lemma_interleaving_preserves_source_order(
    sources: Seq<Seq<Heartbeat>>,
    merged: Seq<Heartbeat>,
    i: int,
)
    requires
        is_interleaving(sources, merged),
        0 <= i < sources.len(),
    ensures
        is_subsequence(sources[i], merged),
    decreases merged.len(),
{
    if merged.len() == 0 {
        assert(sources[i].len() == 0);
    } else {
        let j = choose|j: int|
            {
                &&& 0 <= j < sources.len()
                &&& (#[trigger] sources[j]).len() > 0
                &&& merged[0] == sources[j][0]
                &&& is_interleaving(
                    sources.update(j, sources[j].drop_first()),
                    merged.drop_first(),
                )
            };
        let taken = sources.update(j, sources[j].drop_first());
        lemma_interleaving_preserves_source_order(taken, merged.drop_first(), i);
        if i == j {
            assert(taken[i] == sources[i].drop_first());
            assert(sources[i][0] == merged[0]);
        } else {
            assert(taken[i] == sources[i]);
        }
    }
}

} // verus!
