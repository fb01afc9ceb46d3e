//! First-failure-wins supervision.
//!
//! Every long-running unit of the node — the two transport loops, each relay
//! listener, the bridge drains, the discovery broadcaster — is a supervised
//! task: its only observable outcomes are "still running" and "failed with
//! an error". The node is the composition of all of them under one policy:
//! there is no partial restart, the first failure of any task is the node's
//! failure, and the whole task tree then unwinds. The composition is a
//! generic primitive over any number of tasks, testable with injected
//! outcomes.

use vstd::prelude::*;

verus! {

/// What one supervised task currently shows: still running, or failed with
/// a diagnostic. A task never completes successfully; it runs until it
/// fails or the whole node is torn down.
#[derive(Clone, Debug, PartialEq, Eq)]
pub enum TaskOutcome {
    /// The task is alive.
    Running,
    /// The task failed with this error.
    Failed(String),
}

/// What the composed node does next: keep serving, or terminate reporting
/// the given task's error.
#[derive(Clone, Copy, Debug, PartialEq, Eq)]
pub enum NodeDecision {
    /// Every task is alive; the node keeps serving.
    KeepRunning,
    /// The task at this index failed first; its error is the node's error.
    FailWith(usize),
}

/// Compose any number of supervised tasks with first-failure-wins
/// semantics: if no task has failed the node keeps running, otherwise the
/// node fails with the error of the earliest failed task, and no later
/// outcome can mask it.
pub fn first_failure(outcomes: &Vec<TaskOutcome>) -> (d: NodeDecision)
    ensures
        match d {
            NodeDecision::KeepRunning => forall|j: int|
                0 <= j < outcomes@.len() ==> !(outcomes@[j] is Failed),
            NodeDecision::FailWith(i) => {
                &&& i < outcomes@.len()
                &&& outcomes@[i as int] is Failed
                &&& forall|j: int| 0 <= j < i ==> !(outcomes@[j] is Failed)
            },
        },
{
    let mut i: usize = 0;
    while i < outcomes.len()
        invariant
            i <= outcomes@.len(),
            forall|j: int| 0 <= j < i ==> !(outcomes@[j] is Failed),
        decreases outcomes@.len() - i,
    {
        match &outcomes[i] {
            TaskOutcome::Failed(_) => {
                return NodeDecision::FailWith(i);
            },
            TaskOutcome::Running => {},
        }
        i = i + 1;
    }
    NodeDecision::KeepRunning
}

} // verus!
