use vstd::prelude::*;

use crate::node::NodeModel;
use crate::status::{CompileStatus, ComputeNodeStatus, ReadbackLimit};

verus! {

/// The node after one update per frame, the `i`-th frame seeing `compiles[i]`.
pub open spec fn run_frames(m: NodeModel, compiles: Seq<CompileStatus>) -> NodeModel
    decreases compiles.len(),
{
    if compiles.len() == 0 {
        m
    } else {
        run_frames(m, compiles.drop_last()).next(compiles.last())
    }
}

/// How many of those frames end in `Ready`.
pub open spec fn ready_frames(m: NodeModel, compiles: Seq<CompileStatus>) -> nat
    decreases compiles.len(),
{
    if compiles.len() == 0 {
        0
    } else {
        ready_frames(m, compiles.drop_last()) + (if run_frames(m, compiles).status
            == ComputeNodeStatus::Ready {
            1nat
        } else {
            0nat
        })
    }
}

/// `k` frames in which the pipeline is compiled.
pub open spec fn all_compiled(k: nat) -> Seq<CompileStatus> {
    Seq::new(k, |i: int| CompileStatus::Ready)
}

/// With a budget of `n` and a pipeline that stays compiled, a fresh node is
/// `Ready` on frames 1 to `n`, its counter counting them, and `Completed`,
/// counter cleared, from frame `n + 1` on: it enters `Ready` exactly `n`
/// times before it first completes.
pub proof fn lemma_finite_limit(n: usize, k: nat)
    ensures
        run_frames(NodeModel::fresh(ReadbackLimit::Finite(n)), all_compiled(k)) == (if k == 0 {
            NodeModel::fresh(ReadbackLimit::Finite(n))
        } else if k <= n {
            NodeModel { status: ComputeNodeStatus::Ready, count: k, limit: ReadbackLimit::Finite(n) }
        } else {
            NodeModel {
                status: ComputeNodeStatus::Completed,
                count: 0,
                limit: ReadbackLimit::Finite(n),
            }
        }),
        ready_frames(NodeModel::fresh(ReadbackLimit::Finite(n)), all_compiled(k)) == (if k <= n {
            k
        } else {
            n as nat
        }),
    decreases k,
{
    if k > 0 {
        lemma_finite_limit(n, (k - 1) as nat);
        assert(all_compiled(k).drop_last() =~= all_compiled((k - 1) as nat));
    }
}

proof fn lemma_infinite_run(m: NodeModel, compiles: Seq<CompileStatus>)
    requires
        m.limit == ReadbackLimit::Infinite,
        m.wf(),
        m.status != ComputeNodeStatus::Error,
        forall|i: int| 0 <= i < compiles.len() ==> compiles[i] != CompileStatus::Failed,
    ensures
        run_frames(m, compiles).limit == ReadbackLimit::Infinite,
        run_frames(m, compiles).wf(),
        run_frames(m, compiles).status != ComputeNodeStatus::Error,
        compiles.len() > 0 ==> run_frames(m, compiles).status == (if compiles.last()
            == CompileStatus::Ready {
            ComputeNodeStatus::Ready
        } else {
            ComputeNodeStatus::Loading
        }),
    decreases compiles.len(),
{
    if compiles.len() > 0 {
        let prefix = compiles.drop_last();
        assert forall|i: int| 0 <= i < prefix.len() implies prefix[i] != CompileStatus::Failed by {
            assert(prefix[i] == compiles[i]);
        }
        lemma_infinite_run(m, prefix);
        assert(compiles.last() == compiles[compiles.len() - 1]);
    }
}

/// Without a budget, and with a pipeline that never fails, a node that has
/// not failed never completes: after each frame it is `Ready` when the
/// pipeline is compiled and `Loading` when it is not.
pub proof fn lemma_infinite_limit(m: NodeModel, compiles: Seq<CompileStatus>)
    requires
        m.limit == ReadbackLimit::Infinite,
        m.wf(),
        m.status != ComputeNodeStatus::Error,
        forall|i: int| 0 <= i < compiles.len() ==> compiles[i] != CompileStatus::Failed,
    ensures
        forall|j: int|
            1 <= j <= compiles.len() ==> #[trigger] run_frames(m, compiles.take(j)).status == (
            if compiles[j - 1] == CompileStatus::Ready {
                ComputeNodeStatus::Ready
            } else {
                ComputeNodeStatus::Loading
            }),
        run_frames(m, compiles).status != ComputeNodeStatus::Completed,
{
    lemma_infinite_run(m, compiles);
    assert forall|j: int| 1 <= j <= compiles.len() implies #[trigger] run_frames(
        m,
        compiles.take(j),
    ).status == (if compiles[j - 1] == CompileStatus::Ready {
        ComputeNodeStatus::Ready
    } else {
        ComputeNodeStatus::Loading
    }) by {
        let prefix = compiles.take(j);
        assert forall|i: int| 0 <= i < prefix.len() implies prefix[i] != CompileStatus::Failed by {
            assert(prefix[i] == compiles[i]);
        }
        lemma_infinite_run(m, prefix);
        assert(prefix.last() == compiles[j - 1]);
    }
}

/// A reset yields a loading node with a cleared counter from any state, and
/// resetting again changes nothing.
pub proof fn lemma_reset_idempotent(m: NodeModel)
    ensures
        m.reset().status == ComputeNodeStatus::Loading,
        m.reset().count == 0,
        m.reset().limit == m.limit,
        m.reset().reset() == m.reset(),
        m.reset().wf(),
{
}

/// Once in `Error`, a node stays exactly as it is, whatever the pipeline
/// does afterwards, until it is reset.
pub proof fn lemma_error_sticky(m: NodeModel, compiles: Seq<CompileStatus>)
    requires
        m.status == ComputeNodeStatus::Error,
    ensures
        run_frames(m, compiles) == m,
    decreases compiles.len(),
{
    if compiles.len() > 0 {
        lemma_error_sticky(m, compiles.drop_last());
    }
}

} // verus!
