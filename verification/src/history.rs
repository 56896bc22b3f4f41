//! A history model of the queue: what any interleaving of pushes and pops
//! does to the backlog and to the jobs delivered so far, and the proof that
//! no job is ever lost or delivered twice.

use crate::queue::{spec_pop_result, spec_popped};
use vstd::prelude::*;

verus! {

/// One operation on the queue, as the model sees it: a producer push of a
/// job, or a consumer drain attempt.
pub enum QueueOp {
    Push { job: Seq<char> },
    Pop,
}

/// The model state after some prefix of operations: the jobs still pending,
/// and the jobs already handed out, each in order.
pub struct QueueHistory {
    pub backlog: Seq<Seq<char>>,
    pub delivered: Seq<Seq<char>>,
}

/// The state a fresh queue starts from: nothing pending, nothing delivered.
pub open spec fn init_history() -> QueueHistory {
    QueueHistory { backlog: Seq::empty(), delivered: Seq::empty() }
}

/// What one operation does to the model state. A push appends to the
/// backlog; a drain attempt moves the head of the backlog, when there is
/// one, to the delivered sequence, exactly as the executable operations
/// promise in their contracts.
pub open spec fn apply_op(h: QueueHistory, op: QueueOp) -> QueueHistory {
    match op {
        QueueOp::Push { job } => QueueHistory {
            backlog: h.backlog.push(job),
            delivered: h.delivered,
        },
        QueueOp::Pop => QueueHistory {
            backlog: spec_popped(h.backlog),
            delivered: match spec_pop_result(h.backlog) {
                Some(j) => h.delivered.push(j),
                None => h.delivered,
            },
        },
    }
}

/// The model state after a whole sequence of operations, starting from a
/// fresh queue.
pub open spec fn run_ops(ops: Seq<QueueOp>) -> QueueHistory
    decreases ops.len(),
{
    if ops.len() == 0 {
        init_history()
    } else {
        apply_op(run_ops(ops.drop_last()), ops.last())
    }
}

/// The jobs pushed by a sequence of operations, in push order.
pub open spec fn pushes_of(ops: Seq<QueueOp>) -> Seq<Seq<char>>
    decreases ops.len(),
{
    if ops.len() == 0 {
        Seq::empty()
    } else {
        match ops.last() {
            QueueOp::Push { job } => pushes_of(ops.drop_last()).push(job),
            QueueOp::Pop => pushes_of(ops.drop_last()),
        }
    }
}

/// No loss and no duplication: after any interleaving of pushes and drain
/// attempts, the jobs delivered so far followed by the jobs still pending
/// are exactly the jobs pushed, in push order. So each pushed job is handed
/// out at most once, in FIFO order, and a job not yet handed out is still
/// pending.
pub proof fn lemma_no_loss_no_duplication(ops: Seq<QueueOp>)
    ensures
        run_ops(ops).delivered + run_ops(ops).backlog == pushes_of(ops),
    decreases ops.len(),
{
    if ops.len() == 0 {
        assert(run_ops(ops).delivered + run_ops(ops).backlog =~= pushes_of(ops));
    } else {
        let prefix = ops.drop_last();
        lemma_no_loss_no_duplication(prefix);
        let h = run_ops(prefix);
        match ops.last() {
            QueueOp::Push { job } => {
                assert(run_ops(ops).delivered + run_ops(ops).backlog =~= pushes_of(ops));
            },
            QueueOp::Pop => {
                if h.backlog.len() == 0 {
                    assert(run_ops(ops).delivered + run_ops(ops).backlog =~= pushes_of(ops));
                } else {
                    assert(run_ops(ops).delivered + run_ops(ops).backlog =~= pushes_of(ops));
                }
            },
        }
    }
}

/// Delivery is in push order: the jobs handed out after any interleaving
/// are exactly the first so-many pushed jobs.
pub proof fn lemma_fifo_delivery(ops: Seq<QueueOp>)
    ensures
        run_ops(ops).delivered == pushes_of(ops).take(run_ops(ops).delivered.len() as int),
{
    lemma_no_loss_no_duplication(ops);
    assert(run_ops(ops).delivered =~= pushes_of(ops).take(run_ops(ops).delivered.len() as int));
}

/// Drain attempts beyond the number of pushed jobs come up empty: once
/// every pushed job has been delivered, the backlog is empty and a further
/// attempt returns nothing.
pub proof fn lemma_pop_after_drained(ops: Seq<QueueOp>)
    requires
        run_ops(ops).delivered.len() == pushes_of(ops).len(),
    ensures
        run_ops(ops).backlog.len() == 0,
        spec_pop_result(run_ops(ops).backlog) is None,
{
    lemma_no_loss_no_duplication(ops);
}

} // verus!
