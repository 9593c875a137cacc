//! The ledger of decisions and its mirror in the tasks.

use vstd::prelude::*;

use crate::models::{DecisionModel, DecisionSummary, TaskModel, TaskSummary};
use crate::table::{view_opt, Dup, Table};
use crate::text::{is_text, same_text};
use crate::time::{lemma_before_total, Timestamp};

verus! {

/// Which decisions are asked for: those on a task, perhaps only those to one
/// agent, perhaps only those that are not acknowledged.
pub open spec fn decision_fits(
    d: DecisionModel,
    task_id: Seq<char>,
    target: Option<Seq<char>>,
    open_only: bool,
) -> bool {
    &&& d.task_id == task_id
    &&& target matches Some(agent) ==> d.target_agent == agent
    &&& open_only ==> d.acknowledged_at is None
}

/// The newest of the decisions that are asked for; of two of one time, the later filed.
pub open spec fn newest_decision(
    s: Seq<DecisionModel>,
    task_id: Seq<char>,
    target: Option<Seq<char>>,
    open_only: bool,
) -> Option<DecisionModel>
    decreases s.len(),
{
    if s.len() == 0 {
        None
    } else {
        let rest = newest_decision(s.drop_last(), task_id, target, open_only);
        let d = s.last();
        if !decision_fits(d, task_id, target, open_only) {
            rest
        } else {
            match rest {
                Some(r) => if d.created_at.before(r.created_at) {
                    rest
                } else {
                    Some(d)
                },
                None => Some(d),
            }
        }
    }
}

/// The latest decision on a task.
pub open spec fn latest_decision(s: Seq<DecisionModel>, task_id: Seq<char>) -> Option<DecisionModel> {
    newest_decision(s, task_id, None, false)
}

/// The newest decision is in the ledger, fits, and none that fits is newer; there is
/// none only where none fits.
pub proof fn newest_decision_is_newest(
    s: Seq<DecisionModel>,
    task_id: Seq<char>,
    target: Option<Seq<char>>,
    open_only: bool,
)
    ensures
        match newest_decision(s, task_id, target, open_only) {
            Some(d) => s.contains(d) && decision_fits(d, task_id, target, open_only) && forall|
                i: int,
            |
                0 <= i < s.len() && decision_fits(#[trigger] s[i], task_id, target, open_only)
                    ==> !d.created_at.before(s[i].created_at),
            None => forall|i: int|
                0 <= i < s.len() ==> !decision_fits(#[trigger] s[i], task_id, target, open_only),
        },
    decreases s.len(),
{
    if s.len() > 0 {
        let head = s.drop_last();
        newest_decision_is_newest(head, task_id, target, open_only);
        assert forall|i: int| 0 <= i < s.len() - 1 implies head[i] == #[trigger] s[i] by {}
        match newest_decision(s, task_id, target, open_only) {
            Some(d) => {
                if d != s.last() {
                    let i = head.index_of(d);
                    assert(s[i] == d);
                } else {
                    assert(s[s.len() - 1] == d);
                }
                assert forall|i: int|
                    0 <= i < s.len() && decision_fits(
                        #[trigger] s[i],
                        task_id,
                        target,
                        open_only,
                    ) implies !d.created_at.before(s[i].created_at) by {
                    lemma_before_total(d.created_at, s[i].created_at);
                    if i < s.len() - 1 {
                        assert(head[i] == s[i]);
                    }
                }
            },
            None => {
                assert forall|i: int| 0 <= i < s.len() implies !decision_fits(
                    #[trigger] s[i],
                    task_id,
                    target,
                    open_only,
                ) by {
                    if i < s.len() - 1 {
                        assert(head[i] == s[i]);
                    }
                }
            },
        }
    }
}

pub fn find_newest_decision(
    decisions: &Table<DecisionSummary>,
    task_id: &str,
    target: Option<&str>,
    open_only: bool,
) -> (r: Option<DecisionSummary>)
    ensures
        view_opt(r) == newest_decision(
            decisions@,
            task_id@,
            crate::text::opt_str(target),
            open_only,
        ),
{
    let mut best: Option<DecisionSummary> = None;
    let mut i: usize = 0;
    let ghost want = crate::text::opt_str(target);
    while i < decisions.len()
        invariant
            i <= decisions@.len(),
            want == crate::text::opt_str(target),
            view_opt(best) == newest_decision(
                decisions@.take(i as int),
                task_id@,
                want,
                open_only,
            ),
        decreases decisions@.len() - i,
    {
        let d = decisions.at(i);
        proof {
            assert(decisions@.take(i + 1).drop_last() =~= decisions@.take(i as int));
            assert(decisions@.take(i + 1).last() == d@);
        }
        let to_target = match target {
            Some(agent) => same_text(d.target_agent.as_str(), agent),
            None => true,
        };
        let fits = same_text(d.task_id.as_str(), task_id) && to_target && (!open_only
            || d.acknowledged_at.is_none());
        assert(fits == decision_fits(d@, task_id@, want, open_only));
        if fits {
            let newer = match &best {
                Some(b) => !d.created_at.is_before(&b.created_at),
                None => true,
            };
            if newer {
                best = Some(d.dup());
            }
        }
        i += 1;
    }
    assert(decisions@.take(i as int) =~= decisions@);
    best
}

/// The latest decision on a task.
pub fn latest_decision_for_task(decisions: &Table<DecisionSummary>, task_id: &str) -> (r: Option<
    DecisionSummary,
>)
    ensures
        view_opt(r) == latest_decision(decisions@, task_id@),
{
    find_newest_decision(decisions, task_id, None, false)
}

/// The task with the decision mirrored in it.
pub open spec fn with_decision(task: TaskModel, decision: Option<DecisionModel>) -> TaskModel {
    match decision {
        Some(d) => TaskModel {
            latest_decision_id: Some(d.decision_id),
            latest_decision_summary: Some(d.summary),
            latest_decision_status: Some(d.status),
            latest_decision_issued_by: Some(d.issued_by),
            latest_decision_at: Some(d.created_at),
            ..task
        },
        None => TaskModel {
            latest_decision_id: None,
            latest_decision_summary: None,
            latest_decision_status: None,
            latest_decision_issued_by: None,
            latest_decision_at: None,
            ..task
        },
    }
}

/// Whether the task mirrors the decision.
pub open spec fn mirrors_decision(task: TaskModel, decision: Option<DecisionModel>) -> bool {
    task == with_decision(task, decision)
}

pub fn apply_latest_decision_fields(task: &mut TaskSummary, decision: Option<&DecisionSummary>)
    ensures
        final(task)@ == with_decision(
            old(task)@,
            match decision {
                Some(d) => Some(d@),
                None => None,
            },
        ),
{
    match decision {
        Some(d) => {
            task.latest_decision_id = Some(d.decision_id.clone());
            task.latest_decision_summary = Some(d.summary.clone());
            task.latest_decision_status = Some(d.status.clone());
            task.latest_decision_issued_by = Some(d.issued_by.clone());
            task.latest_decision_at = Some(d.created_at);
        },
        None => {
            task.latest_decision_id = None;
            task.latest_decision_summary = None;
            task.latest_decision_status = None;
            task.latest_decision_issued_by = None;
            task.latest_decision_at = None;
        },
    }
}

pub fn same_opt_time(a: Option<Timestamp>, b: Option<Timestamp>) -> (r: bool)
    ensures
        r == (a == b),
{
    match (a, b) {
        (Some(x), Some(y)) => x == y,
        (None, None) => true,
        _ => false,
    }
}

pub fn task_latest_decision_is_current(task: &TaskSummary, decision: Option<&DecisionSummary>) -> (r:
    bool)
    ensures
        r == mirrors_decision(
            task@,
            match decision {
                Some(d) => Some(d@),
                None => None,
            },
        ),
{
    match decision {
        Some(d) => {
            is_text(&task.latest_decision_id, d.decision_id.as_str()) && is_text(
                &task.latest_decision_summary,
                d.summary.as_str(),
            ) && is_text(&task.latest_decision_status, d.status.as_str()) && is_text(
                &task.latest_decision_issued_by,
                d.issued_by.as_str(),
            ) && same_opt_time(task.latest_decision_at, Some(d.created_at))
        },
        None => {
            task.latest_decision_id.is_none() && task.latest_decision_summary.is_none()
                && task.latest_decision_status.is_none() && task.latest_decision_issued_by.is_none()
                && task.latest_decision_at.is_none()
        },
    }
}

/// After the decision is mirrored, the mirror is current.
pub proof fn mirrored_decision_is_current(task: TaskModel, decision: Option<DecisionModel>)
    ensures
        mirrors_decision(with_decision(task, decision), decision),
{
}

} // verus!
