//! What is answered to a request that is refused: who or what was named, and why it cannot be.

use vstd::prelude::*;

use crate::draft::{ad_hoc_check, new_task_check, task_round_check};
use crate::models::{
    AgentBootstrapState, AgentModel, AgentSessionState, DraftModel, TaskModel, TaskState,
};
use crate::state::{known_agent, known_task, World};
use crate::time::Timestamp;

verus! {

/// A refusal with this message.
pub open spec fn refuses<T>(r: Result<T, Seq<char>>, message: Seq<char>) -> bool {
    r == Err::<T, Seq<char>>(message)
}

/// Who and what is not known is named.
pub proof fn unknown_is_named(w: World, name: Seq<char>, task_id: Seq<char>)
    ensures
        w.agent(name) is None ==> refuses(known_agent(w, name), "agent not registered: "@ + name),
        w.agent(name) matches Some(a) ==> known_agent(w, name) == Ok::<AgentModel, Seq<char>>(a),
        w.task(task_id) is None ==> refuses(known_task(w, task_id), "task not found: "@ + task_id),
        w.task(task_id) matches Some(t) ==> known_task(w, task_id) == Ok::<TaskModel, Seq<char>>(t),
{
}

/// An agent that cannot take work is named with what keeps it from it: first its bootstrap,
/// then its task, then its session, then its state.
pub proof fn agent_that_cannot_work_is_named(a: AgentModel, task_id: Seq<char>)
    ensures
        ({
            let unready = a.bootstrap_state != AgentBootstrapState::Ready;
            let tasked = a.current_task_id is Some;
            let seated = a.current_session_id is Some;
            let target = "target agent "@ + a.name;
            let agent = "agent "@ + a.name;
            &&& unready ==> refuses(
                new_task_check(a),
                target + " has not completed bootstrap, actual "@ + a.bootstrap_state.shown(),
            ) && refuses(
                ad_hoc_check(a),
                agent + " has not completed bootstrap, actual "@ + a.bootstrap_state.shown(),
            ) && refuses(
                task_round_check(a, task_id),
                agent + " has not completed bootstrap, actual "@ + a.bootstrap_state.shown(),
            )
            &&& !unready && tasked ==> refuses(
                new_task_check(a),
                target + " already has an in-flight task"@,
            ) && refuses(
                ad_hoc_check(a),
                agent + " has an in-flight task and cannot run an ad hoc round"@,
            )
            &&& !unready && a.current_task_id != Some(task_id) ==> refuses(
                task_round_check(a, task_id),
                agent + " is not currently assigned to task "@ + task_id,
            )
            &&& !unready && !tasked && seated ==> refuses(
                new_task_check(a),
                target + " already has a live session attached"@,
            ) && refuses(ad_hoc_check(a), agent + " already has a live session attached"@)
            &&& !unready && !tasked && !seated && a.state != AgentSessionState::Idle ==> refuses(
                new_task_check(a),
                target + " must be idle before receiving a new task, actual "@ + a.state.shown(),
            ) && refuses(
                ad_hoc_check(a),
                agent + " must be idle before running an ad hoc round, actual "@ + a.state.shown(),
            )
        }),
{
}

/// A step that does not fit is refused with the task's agent where another asks for it, and
/// with the task's state where that is not the one that is expected.
pub proof fn step_that_does_not_fit_is_named(
    w: World,
    task_id: Seq<char>,
    agent: Seq<char>,
    expected: TaskState,
    next: TaskState,
    event_type: Seq<char>,
    now: Timestamp,
)
    ensures
        ({
            let r = w.transition_task(task_id, agent, expected, next, event_type, now).1;
            let task = "task "@ + task_id;
            &&& w.task(task_id) is None ==> refuses(r, "task not found: "@ + task_id)
            &&& w.task(task_id) matches Some(t) ==> (t.to_agent != agent ==> refuses(
                r,
                task + " is assigned to "@ + t.to_agent + ", not "@ + agent,
            )) && (t.to_agent == agent && t.state != expected ==> refuses(
                r,
                task + " must be in state "@ + expected.shown() + ", actual "@ + t.state.shown(),
            ))
        }),
{
}

/// A task that cannot be created, tried again or given up is refused with what was named and
/// the state that it is in.
pub proof fn task_that_cannot_be_is_named(
    w: World,
    from: Seq<char>,
    to: Seq<char>,
    draft: DraftModel,
    by: Option<Seq<char>>,
    standing: Option<Seq<char>>,
    why: Seq<char>,
    task_id: Seq<char>,
    now: Timestamp,
)
    ensures
        w.agent(to) is None ==> refuses(
            w.create_task(from, to, draft, by, standing, why, task_id, now).1,
            "target agent not registered: "@ + to,
        ),
        (w.agent(to) is Some && new_task_check(w.agent(to)->Some_0) is Ok && (by is Some <==> standing
            is None)) ==> refuses(
            w.create_task(from, to, draft, by, standing, why, task_id, now).1,
            "auto_resolve_by and auto_resolve_summary must be set together"@,
        ),
        w.agent(from) is None ==> refuses(
            w.retry_task(task_id, from, now).1,
            "agent not registered: "@ + from,
        ) && refuses(w.cancel_task(task_id, from, now).1, "agent not registered: "@ + from),
        (w.agent(from) is Some && w.task(task_id) is None) ==> refuses(
            w.retry_task(task_id, from, now).1,
            "task not found: "@ + task_id,
        ) && refuses(w.cancel_task(task_id, from, now).1, "task not found: "@ + task_id),
        (w.agent(from) is Some && w.task(task_id) is Some && w.task(task_id)->Some_0.state
            != TaskState::Failed && w.task(task_id)->Some_0.state != TaskState::Cancelled)
            ==> refuses(
            w.retry_task(task_id, from, now).1,
            "task "@ + task_id + " must be failed or cancelled before retry, actual "@ + w.task(
                task_id,
            )->Some_0.state.shown(),
        ),
{
}

/// A decision that cannot be sent or acknowledged is refused with the task's agent or with the
/// state that the task is in.
pub proof fn decision_that_cannot_be_is_named(
    w: World,
    task_id: Seq<char>,
    issued_by: Seq<char>,
    target: Seq<char>,
    summary: Seq<char>,
    decision_id: Seq<char>,
    emit_stream: bool,
    now: Timestamp,
)
    ensures
        ({
            let sent = w.send_decision(task_id, issued_by, target, summary, decision_id, now).1;
            let acked = w.acknowledge_decision(task_id, target, emit_stream, now).1;
            let task = "task "@ + task_id;
            &&& w.task(task_id) is None ==> refuses(sent, "task not found: "@ + task_id) && refuses(
                acked,
                "task not found: "@ + task_id,
            )
            &&& w.task(task_id) matches Some(t) ==> {
                &&& t.to_agent != target ==> refuses(
                    sent,
                    task + " is assigned to "@ + t.to_agent + ", not "@ + target,
                ) && refuses(acked, task + " is assigned to "@ + t.to_agent + ", not "@ + target)
                &&& t.to_agent == target && t.state != TaskState::Analyzed ==> refuses(
                    sent,
                    task + " must be in analyzed state, actual "@ + t.state.shown(),
                )
                &&& t.to_agent == target && t.state != TaskState::DecisionSent && t.state
                    != TaskState::Closed ==> refuses(
                    acked,
                    task
                        + " must be in decision_sent or closed state to acknowledge a decision, actual "@
                        + t.state.shown(),
                )
            }
        }),
{
}

/// An agent that cannot be recovered, or whose thread cannot be reset, is named with what keeps
/// it from that.
pub proof fn agent_that_is_not_at_rest_is_named(w: World, name: Seq<char>, now: Timestamp)
    ensures
        ({
            let recovered = w.recover_agent(name, now).1;
            let reset = w.reset_thread(name, now).1;
            let agent = "agent "@ + name;
            &&& w.agent(name) is None ==> refuses(recovered, "agent not registered: "@ + name)
                && refuses(reset, "agent not registered: "@ + name)
            &&& w.agent(name) matches Some(a) ==> {
                &&& a.current_task_id is Some ==> refuses(
                    recovered,
                    agent + " still has an in-flight task and cannot be recovered"@,
                )
                &&& a.current_task_id is None && a.current_session_id is Some ==> refuses(
                    recovered,
                    agent + " still has a live session and cannot be recovered"@,
                )
                &&& a.current_session_id is Some ==> refuses(
                    reset,
                    agent + " still has a live session and cannot reset thread"@,
                )
                &&& a.current_session_id is None && a.current_task_id is Some ==> refuses(
                    reset,
                    agent + " still has an in-flight task and cannot reset thread"@,
                )
                &&& a.current_task_id is None && a.current_session_id is None && a.state
                    != AgentSessionState::Blocked ==> refuses(
                    recovered,
                    agent + " must be blocked before recovery, actual "@ + a.state.shown(),
                )
            }
        }),
{
}

} // verus!
