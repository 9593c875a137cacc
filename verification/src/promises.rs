//! What holds of tasks and agents across operations: how a decision continues or
//! closes a task, what binds an agent to its task, and what sets it free.

use vstd::prelude::*;

use crate::control::ControlRequest;
use crate::decision::{decision_fits, newest_decision, newest_decision_is_newest, with_decision};
use crate::dispatch::{matter, Matter, RequestFacts};
use crate::draft::{ad_hoc_check, agent_state_for, new_task_check, terminal};
use crate::ids::tagged;
use crate::models::{
    AgentModel, BridgeDeliveryKind, DecisionModel, DraftModel, PayloadModel, TaskModel,
    TaskRoundStatus, TaskState,
};
use crate::state::World;
use crate::table::{filed, found, lemma_place, lemma_put, place, put, Keyed};
use crate::tasks::{analyzable, cancellable, entered};
use crate::time::{lemma_before_total, Timestamp};

verus! {

pub broadcast proof fn found_after_put<R: Keyed>(s: Seq<R>, r: R, k: Seq<char>)
    ensures
        #[trigger] found(put(s, r), k) == (if k == r.key() {
            Some(r)
        } else {
            found(s, k)
        }),
{
    lemma_put(s, r, k);
}

pub broadcast proof fn found_has_its_key<R: Keyed>(s: Seq<R>, k: Seq<char>)
    ensures
        #[trigger] found(s, k) matches Some(r) ==> r.key() == k,
{
    lemma_place(s, k);
}

/// Whether the two records of an agent agree in all that its work is about.
pub open spec fn same_duty(a: Option<AgentModel>, b: Option<AgentModel>) -> bool {
    match (a, b) {
        (Some(x), Some(y)) => x.name == y.name && x.state == y.state && x.current_task_id
            == y.current_task_id && x.current_session_id == y.current_session_id
            && x.bootstrap_state == y.bootstrap_state && x.thread_id == y.thread_id && x.cwd
            == y.cwd,
        (None, None) => true,
        _ => false,
    }
}

/// Whether no agent's work changes.
pub open spec fn same_duties(w: World, v: World) -> bool {
    forall|n: Seq<char>| same_duty(w.agent(n), #[trigger] v.agent(n))
}

broadcast proof fn queueing_leaves_duties(
    w: World,
    recipient: Seq<char>,
    kind: BridgeDeliveryKind,
    task: Option<TaskModel>,
    decision: Option<DecisionModel>,
    reason: Option<Seq<char>>,
    now: Timestamp,
)
    ensures
        #![trigger w.queue_bridge_delivery(recipient, kind, task, decision, reason, now)]
        same_duties(w, w.queue_bridge_delivery(recipient, kind, task, decision, reason, now)),
        w.queue_bridge_delivery(recipient, kind, task, decision, reason, now).tasks == w.tasks,
        w.queue_bridge_delivery(recipient, kind, task, decision, reason, now).decisions
            == w.decisions,
        w.queue_bridge_delivery(recipient, kind, task, decision, reason, now).sessions
            == w.sessions,
{
    broadcast use {found_after_put, found_has_its_key};

}

/// A step of a task changes the task alone, and leaves every agent at its work.
pub proof fn transition_moves_the_task(
    w: World,
    task: TaskModel,
    next: TaskState,
    event_type: Seq<char>,
    actor: Option<Seq<char>>,
    now: Timestamp,
)
    ensures
        w.transition(task, next, event_type, actor, now).1 == entered(task, next, now),
        w.transition(task, next, event_type, actor, now).0.tasks == put(
            w.tasks,
            entered(task, next, now),
        ),
        w.transition(task, next, event_type, actor, now).0.decisions == w.decisions,
        w.transition(task, next, event_type, actor, now).0.sessions == w.sessions,
        same_duties(w, w.transition(task, next, event_type, actor, now).0),
{
    broadcast use queueing_leaves_duties;

    let updated = entered(task, next, now);
    let moved = w.move_task(updated, event_type, task.state);
    assert(moved.agents == w.agents);
    assert(same_duties(w, moved));
}

/// A task keeps its identity, its makers, its wording and its scopes.
pub open spec fn same_task(a: TaskModel, b: TaskModel) -> bool {
    &&& a.task_id == b.task_id
    &&& a.from_agent == b.from_agent
    &&& a.to_agent == b.to_agent
    &&& a.title == b.title
    &&& a.summary == b.summary
    &&& a.effort == b.effort
    &&& a.read_scope == b.read_scope
    &&& a.write_scope == b.write_scope
    &&& a.acceptance == b.acceptance
    &&& a.auto_resolve_by == b.auto_resolve_by
    &&& a.auto_resolve_summary == b.auto_resolve_summary
    &&& a.created_at == b.created_at
}

/// A task that enters a state stays the same task, and is closed exactly in a state
/// in which it is over.
pub proof fn entering_keeps_the_task(task: TaskModel, next: TaskState, now: Timestamp)
    ensures
        same_task(task, entered(task, next, now)),
        terminal(next) ==> entered(task, next, now).closed_at == Some(now),
        !terminal(next) ==> entered(task, next, now).closed_at == task.closed_at,
{
}

/// Work that goes on does not free the agent: a step into a state in which the task
/// is not over, a finished round among them, leaves every agent bound as it was.
pub proof fn only_an_end_frees_the_agent(
    w: World,
    task_id: Seq<char>,
    agent: Seq<char>,
    expected: TaskState,
    next: TaskState,
    event_type: Seq<char>,
    now: Timestamp,
)
    ensures
        same_duties(
            w,
            w.transition_task(task_id, agent, expected, next, event_type, now).0,
        ),
{
    broadcast use found_has_its_key;

    if let Some(task) = w.task(task_id) {
        transition_moves_the_task(w, task, next, event_type, Some(agent), now);
    }
}

/// The decisions on the task, if any, were made no later than now.
pub open spec fn decided_before(w: World, task_id: Seq<char>, now: Timestamp) -> bool {
    forall|i: int|
        0 <= i < w.decisions.len() && (#[trigger] w.decisions[i]).task_id == task_id
            ==> !now.before(w.decisions[i].created_at)
}

/// A decision that was made last is the newest.
proof fn lemma_pushed_is_newest(
    s: Seq<DecisionModel>,
    d: DecisionModel,
    target: Option<Seq<char>>,
    open_only: bool,
)
    requires
        decision_fits(d, d.task_id, target, open_only),
        forall|i: int|
            0 <= i < s.len() && (#[trigger] s[i]).task_id == d.task_id ==> !d.created_at.before(
                s[i].created_at,
            ),
    ensures
        newest_decision(s.push(d), d.task_id, target, open_only) == Some(d),
{
    assert(s.push(d).drop_last() =~= s);
    newest_decision_is_newest(s, d.task_id, target, open_only);
    if let Some(r) = newest_decision(s, d.task_id, target, open_only) {
        let i = s.index_of(r);
        assert(s[i] == r);
        lemma_before_total(d.created_at, r.created_at);
    }
}

/// What sending a decision leaves.
proof fn lemma_sent(
    w: World,
    task_id: Seq<char>,
    issued_by: Seq<char>,
    target: Seq<char>,
    summary: Seq<char>,
    decision_id: Seq<char>,
    now: Timestamp,
)
    requires
        w.task(task_id) matches Some(t) && t.to_agent == target && t.state is Analyzed,
    ensures
        ({
            let t = w.task(task_id)->Some_0;
            let d = DecisionModel {
                decision_id,
                task_id,
                issued_by,
                target_agent: target,
                summary,
                status: "sent"@,
                created_at: now,
                acknowledged_at: None,
            };
            let r = w.send_decision(task_id, issued_by, target, summary, decision_id, now);
            &&& r.1 == Ok::<DecisionModel, Seq<char>>(d)
            &&& r.0.decisions == put(w.decisions, d)
            &&& same_duties(w, r.0)
            &&& r.0.task(task_id) == Some(
                with_decision(entered(t, TaskState::DecisionSent, now), Some(d)),
            )
        }),
{
    broadcast use {found_after_put, found_has_its_key};

    let t = w.task(task_id)->Some_0;
    transition_moves_the_task(
        w,
        t,
        TaskState::DecisionSent,
        "decision_sent"@,
        Some(target),
        now,
    );
    let moved = w.transition(t, TaskState::DecisionSent, "decision_sent"@, Some(target), now);
    let e = entered(t, TaskState::DecisionSent, now);
    let d = DecisionModel {
        decision_id,
        task_id,
        issued_by,
        target_agent: target,
        summary,
        status: "sent"@,
        created_at: now,
        acknowledged_at: None,
    };
    assert(e.updated_at == now);
    let r = w.send_decision(task_id, issued_by, target, summary, decision_id, now);
    assert(r.0.agents == moved.0.agents);
}

/// What acknowledging the newest decision leaves.
proof fn lemma_acknowledged(
    w: World,
    task_id: Seq<char>,
    agent: Seq<char>,
    emit_stream: bool,
    d: DecisionModel,
    now: Timestamp,
)
    requires
        w.task(task_id) matches Some(t) && t.to_agent == agent && t.state is DecisionSent,
        newest_decision(w.decisions, task_id, Some(agent), true) == Some(d),
    ensures
        ({
            let t = w.task(task_id)->Some_0;
            let u = DecisionModel { status: "acknowledged"@, acknowledged_at: Some(now), ..d };
            let r = w.acknowledge_decision(task_id, agent, emit_stream, now);
            &&& r.1 == Ok::<DecisionModel, Seq<char>>(u)
            &&& r.0.decisions == put(w.decisions, u)
            &&& r.0.agents == w.agents
            &&& r.0.task(task_id) matches Some(x) && x == (TaskModel {
                updated_at: x.updated_at,
                ..with_decision(t, Some(u))
            })
        }),
{
    broadcast use {found_after_put, found_has_its_key};

}

/// A decision continues the task: one that is sent on a task that was analyzed, at a
/// time when none on it lies in the future, is acknowledged at once, the task waits
/// for its next round and mirrors the decision, and its agent is bound to it.
pub proof fn decision_reopens_the_task(
    w: World,
    task_id: Seq<char>,
    issued_by: Seq<char>,
    target: Seq<char>,
    summary: Seq<char>,
    decision_id: Seq<char>,
    now: Timestamp,
)
    requires
        w.task(task_id) matches Some(t) && t.to_agent == target && t.state is Analyzed,
        !filed(w.decisions, decision_id),
        decided_before(w, task_id, now),
    ensures
        ({
            let r = w.decide_task(task_id, issued_by, target, summary, false, decision_id, now);
            &&& r.1 matches Ok(done)
            &&& done.task.state is Pending && done.decision.decision_id
                == decision_id
            &&& r.0.task(task_id) matches Some(u) && u == done.task && same_task(
                w.task(task_id)->Some_0,
                u,
            ) && u.latest_decision_id == Some(decision_id) && u.latest_decision_summary == Some(
                summary,
            ) && u.latest_decision_status == Some("acknowledged"@) && u.latest_decision_issued_by
                == Some(issued_by)
            &&& found(r.0.decisions, decision_id) matches Some(d) && d.acknowledged_at == Some(now)
            &&& r.0.agent(target) matches Some(a) ==> a.current_task_id == Some(task_id)
                && a.state is Busy
        }),
{
    broadcast use {found_after_put, found_has_its_key};

    lemma_sent(w, task_id, issued_by, target, summary, decision_id, now);
    let sent = w.send_decision(task_id, issued_by, target, summary, decision_id, now);
    let d = sent.1->Ok_0;
    lemma_pushed_is_newest(w.decisions, d, Some(target), true);
    lemma_acknowledged(sent.0, task_id, target, false, d, now);
    let acked = sent.0.acknowledge_decision(task_id, target, false, now);
    let t = acked.0.task(task_id)->Some_0;
    transition_moves_the_task(
        acked.0,
        t,
        TaskState::Pending,
        "task_reopened"@,
        Some(target),
        now,
    );
}

/// A decision closes the task: with the request to close, it is acknowledged at once,
/// the task is closed, and its agent rests without a task.
pub proof fn decision_closes_the_task(
    w: World,
    task_id: Seq<char>,
    issued_by: Seq<char>,
    target: Seq<char>,
    summary: Seq<char>,
    decision_id: Seq<char>,
    now: Timestamp,
)
    requires
        w.task(task_id) matches Some(t) && t.to_agent == target && t.state is Analyzed,
        !filed(w.decisions, decision_id),
        decided_before(w, task_id, now),
    ensures
        ({
            let r = w.decide_task(task_id, issued_by, target, summary, true, decision_id, now);
            &&& r.1 matches Ok(done)
            &&& done.task.state is Closed && done.task.closed_at == Some(
                now,
            )
            &&& r.0.task(task_id) == Some(done.task) && same_task(
                w.task(task_id)->Some_0,
                done.task,
            ) && done.task.latest_decision_id == Some(decision_id)
                && done.task.latest_decision_status == Some("acknowledged"@)
            &&& found(r.0.decisions, decision_id) matches Some(d) && d.acknowledged_at == Some(now)
            &&& r.0.agent(target) matches Some(a) ==> a.current_task_id is None && a.state is Idle
        }),
{
    broadcast use {found_after_put, found_has_its_key};

    lemma_sent(w, task_id, issued_by, target, summary, decision_id, now);
    let sent = w.send_decision(task_id, issued_by, target, summary, decision_id, now);
    let d = sent.1->Ok_0;
    lemma_pushed_is_newest(w.decisions, d, Some(target), true);
    lemma_acknowledged(sent.0, task_id, target, true, d, now);
    let acked = sent.0.acknowledge_decision(task_id, target, true, now);
    let t = acked.0.task(task_id)->Some_0;
    transition_moves_the_task(acked.0, t, TaskState::Closed, "task_closed"@, Some(target), now);
}

/// A decision is refused, and nothing changes, unless the task is known, was analyzed
/// and is the target's.
pub proof fn decision_needs_an_analyzed_task(
    w: World,
    task_id: Seq<char>,
    issued_by: Seq<char>,
    target: Seq<char>,
    summary: Seq<char>,
    auto_close: bool,
    decision_id: Seq<char>,
    now: Timestamp,
)
    requires
        !(w.task(task_id) matches Some(t) && t.to_agent == target && t.state is Analyzed),
    ensures
        w.decide_task(task_id, issued_by, target, summary, auto_close, decision_id, now).1 is Err,
        w.decide_task(task_id, issued_by, target, summary, auto_close, decision_id, now).0 == w,
{
}

/// Resolving a report analyzes it, decides on it and opens the task again in one
/// step: the task waits for its next round with the decision acknowledged.
pub proof fn resolving_reopens_the_task(
    w: World,
    task_id: Seq<char>,
    analyzer: Seq<char>,
    summary: Seq<char>,
    decision_id: Seq<char>,
    now: Timestamp,
)
    requires
        w.task(task_id) matches Some(t) && (t.state is Reported || t.state is BlockedWaitingDecision
            || t.state is Analyzed),
        !filed(w.decisions, decision_id),
        decided_before(w, task_id, now),
    ensures
        ({
            let target = w.task(task_id)->Some_0.to_agent;
            let r = w.resolve_task(task_id, analyzer, summary, decision_id, now);
            &&& r.1 matches Ok(done)
            &&& done.task.state is Pending
            &&& r.0.task(task_id) == Some(done.task) && same_task(
                w.task(task_id)->Some_0,
                done.task,
            ) && done.task.latest_decision_id == Some(decision_id)
                && done.task.latest_decision_status == Some("acknowledged"@)
            &&& found(r.0.decisions, decision_id) matches Some(d) && d.acknowledged_at == Some(now)
            &&& r.0.agent(target) matches Some(a) ==> a.current_task_id == Some(task_id)
                && a.state is Busy
        }),
{
    broadcast use {found_after_put, found_has_its_key};

    let t = w.task(task_id)->Some_0;
    let looked = if t.state is Analyzed {
        w
    } else {
        assert(analyzable()[0] == TaskState::Reported);
        assert(analyzable()[1] == TaskState::BlockedWaitingDecision);
        assert(analyzable().contains(t.state));
        transition_moves_the_task(w, t, TaskState::Analyzed, "main_analyzed"@, None, now);
        w.analyze_task(task_id, analyzer, now).0
    };
    assert(looked.decisions == w.decisions);
    decision_reopens_the_task(looked, task_id, analyzer, t.to_agent, summary, decision_id, now);
}

/// Closing a task acknowledges the newest open decision on it first; the task is then
/// closed and its agent rests without a task.
pub proof fn closing_acknowledges_and_frees(
    w: World,
    task_id: Seq<char>,
    agent: Seq<char>,
    d: DecisionModel,
    now: Timestamp,
)
    requires
        w.task(task_id) matches Some(t) && t.to_agent == agent && t.state is DecisionSent,
        newest_decision(w.decisions, task_id, Some(agent), true) == Some(d),
    ensures
        ({
            let r = w.close_after_decision(task_id, agent, now);
            &&& r.1 matches Ok(task) && task.state is Closed && task.closed_at == Some(now)
                && r.0.task(task_id) == Some(task)
            &&& found(r.0.decisions, d.decision_id) matches Some(u) && u.acknowledged_at == Some(
                now,
            ) && u.status == "acknowledged"@
            &&& r.0.agent(agent) matches Some(a) ==> a.current_task_id is None && a.state is Idle
        }),
{
    broadcast use {found_after_put, found_has_its_key};

    lemma_acknowledged(w, task_id, agent, true, d, now);
    let acked = w.acknowledge_decision(task_id, agent, true, now);
    let t = acked.0.task(task_id)->Some_0;
    transition_moves_the_task(acked.0, t, TaskState::Closed, "task_closed"@, Some(agent), now);
}

/// An agent that is not idle, is not bootstrapped or holds a task or a session gets
/// neither a new task nor a round outside any task; the refusal changes nothing.
pub proof fn busy_agent_is_refused(
    w: World,
    from: Seq<char>,
    to: Seq<char>,
    draft: DraftModel,
    by: Option<Seq<char>>,
    summary: Option<Seq<char>>,
    reason: Seq<char>,
    task_id: Seq<char>,
    now: Timestamp,
)
    requires
        w.agent(to) matches Some(a) && (!(a.state is Idle) || !(a.bootstrap_state is Ready)
            || a.current_task_id is Some || a.current_session_id is Some),
    ensures
        w.create_task(from, to, draft, by, summary, reason, task_id, now).1 is Err,
        w.create_task(from, to, draft, by, summary, reason, task_id, now).0 == w,
        w.start_ad_hoc_round(to, now).1 is Err,
        w.start_ad_hoc_round(to, now).0 == w,
{
}

/// A blocked agent that holds no task and no session can be recovered, and may then
/// take a task, if it is bootstrapped; any other agent is refused and stays as it is.
pub proof fn recovery_sets_a_blocked_agent_free(w: World, agent: Seq<char>, now: Timestamp)
    ensures
        ({
            let r = w.recover_agent(agent, now);
            match w.agent(agent) {
                Some(a) if a.state is Blocked && a.current_task_id is None
                    && a.current_session_id is None => {
                    &&& r.1 is Ok
                    &&& r.0.agent(agent) matches Some(b) && b.state is Idle && (
                    a.bootstrap_state is Ready ==> new_task_check(b) is Ok && ad_hoc_check(
                        b,
                    ) is Ok)
                },
                _ => r.1 is Err && r.0 == w,
            }
        }),
{
    broadcast use {found_after_put, found_has_its_key};

}

/// The thread of an agent is forgotten exactly where it holds no task and no session;
/// else the request is refused and nothing changes.
pub proof fn thread_is_reset_only_at_rest(w: World, agent: Seq<char>, now: Timestamp)
    ensures
        ({
            let r = w.reset_thread(agent, now);
            match w.agent(agent) {
                Some(a) if a.current_task_id is None && a.current_session_id is None => {
                    &&& r.1 is Ok
                    &&& r.0.agent(agent) matches Some(b) && b.thread_id is None && b.state
                        == a.state
                },
                _ => r.1 is Err && r.0 == w,
            }
        }),
{
    broadcast use {found_after_put, found_has_its_key};

}

/// A task that was created waits, and its agent is bound to it: a second task for the
/// agent is refused.
pub proof fn one_task_at_a_time(
    w: World,
    from: Seq<char>,
    to: Seq<char>,
    draft: DraftModel,
    by: Option<Seq<char>>,
    summary: Option<Seq<char>>,
    reason: Seq<char>,
    task_id: Seq<char>,
    now: Timestamp,
    from2: Seq<char>,
    draft2: DraftModel,
    by2: Option<Seq<char>>,
    summary2: Option<Seq<char>>,
    reason2: Seq<char>,
    task_id2: Seq<char>,
    now2: Timestamp,
)
    requires
        w.create_task(from, to, draft, by, summary, reason, task_id, now).1 is Ok,
    ensures
        ({
            let r = w.create_task(from, to, draft, by, summary, reason, task_id, now);
            &&& r.1 matches Ok(task) && task.state is Pending && task.task_id == task_id
                && task.to_agent == to && r.0.task(task_id) == Some(task)
            &&& r.0.agent(to) matches Some(a) && a.current_task_id == Some(task_id)
                && a.state is Busy
            &&& r.0.create_task(
                from2,
                to,
                draft2,
                by2,
                summary2,
                reason2,
                task_id2,
                now2,
            ).1 is Err
        }),
{
    broadcast use {found_after_put, found_has_its_key, queueing_leaves_duties};

    let r = w.create_task(from, to, draft, by, summary, reason, task_id, now);
    let task = r.1->Ok_0;
    assert(r.0 == w.file_task(task, reason, now));
}

/// The state in which a round leaves its task, before any decision.
pub open spec fn state_after(status: TaskRoundStatus) -> TaskState {
    match status {
        TaskRoundStatus::Result | TaskRoundStatus::Report => TaskState::Reported,
        TaskRoundStatus::WaitDecision => TaskState::BlockedWaitingDecision,
    }
}

proof fn lemma_ended(w: World, task: TaskModel, status: TaskRoundStatus, now: Timestamp)
    requires
        w.task(task.task_id) matches Some(t) && t.state is Running && t.to_agent == task.to_agent,
    ensures
        ({
            let t = w.task(task.task_id)->Some_0;
            let r = w.end_round(task, status, now);
            &&& r.1 matches Ok(u)
            &&& u.state == state_after(status) && same_task(t, u) && u.round_count == t.round_count
                && u.closed_at == t.closed_at && u.latest_decision_id == t.latest_decision_id
            &&& r.0.task(task.task_id) == Some(u)
            &&& r.0.decisions == w.decisions
            &&& same_duties(w, r.0)
        }),
{
    broadcast use {found_after_put, found_has_its_key};

    let t = w.task(task.task_id)->Some_0;
    let who = Some(task.to_agent);
    match status {
        TaskRoundStatus::Result => {
            transition_moves_the_task(w, t, TaskState::Completed, "task_completed"@, who, now);
            let c = w.transition(t, TaskState::Completed, "task_completed"@, who, now);
            transition_moves_the_task(
                c.0,
                c.1,
                TaskState::Reported,
                "result_reported"@,
                who,
                now,
            );
        },
        TaskRoundStatus::Report => {
            transition_moves_the_task(w, t, TaskState::Reported, "report_submitted"@, who, now);
        },
        TaskRoundStatus::WaitDecision => {
            transition_moves_the_task(
                w,
                t,
                TaskState::BlockedWaitingDecision,
                "task_waiting_decision"@,
                who,
                now,
            );
        },
    }
}

/// What a round leaves before any decision: the world, and the task.
spec fn told(
    w: World,
    task: TaskModel,
    payload: PayloadModel,
    thread_id: Option<Seq<char>>,
    completed_at: Timestamp,
    raw: Seq<char>,
    history_event: Seq<char>,
    stream_label: Seq<char>,
    now: Timestamp,
) -> (World, TaskModel) {
    let ended = w.end_round(task, payload.status, now);
    let final_task = ended.1->Ok_0;
    let noted = ended.0.note_task(task.task_id, history_event, final_task.state, raw).say(
        task.to_agent,
        "["@ + stream_label + "] "@ + raw,
        now,
    );
    let next = agent_state_for(final_task.state);
    let settled = match thread_id {
        Some(id) => noted.agent_after_round(task.to_agent, Some(id), next, completed_at, now),
        None => noted.set_agent_state(task.to_agent, next, now),
    };
    settled.0.child_feedback(
        final_task,
        payload.status.label(),
        Some(payload.summary),
        payload.blocking,
        payload.topic,
        payload.details,
        "task_feedback_updated"@,
        now,
    )
}

proof fn lemma_told(
    w: World,
    task: TaskModel,
    payload: PayloadModel,
    thread_id: Option<Seq<char>>,
    completed_at: Timestamp,
    raw: Seq<char>,
    history_event: Seq<char>,
    stream_label: Seq<char>,
    decision_id: Seq<char>,
    now: Timestamp,
)
    requires
        w.task(task.task_id) matches Some(t) && t.state is Running && t.to_agent == task.to_agent,
        w.agent(task.to_agent) is Some,
    ensures
        ({
            let t = w.task(task.task_id)->Some_0;
            let r = told(
                w,
                task,
                payload,
                thread_id,
                completed_at,
                raw,
                history_event,
                stream_label,
                now,
            );
            &&& w.finalize_round(
                task,
                payload,
                thread_id,
                completed_at,
                raw,
                history_event,
                stream_label,
                decision_id,
                now,
            ) == r.0.auto_resolve(r.1, payload.status, decision_id, now)
            &&& r.1.state == state_after(payload.status) && same_task(t, r.1)
            &&& r.1.latest_child_status == Some(payload.status.label()) && r.1.latest_child_summary
                == Some(payload.summary)
            &&& r.1.round_count == (if t.round_count == u32::MAX {
                u32::MAX
            } else {
                (t.round_count + 1) as u32
            })
            &&& r.0.task(task.task_id) == Some(r.1)
            &&& r.0.decisions == w.decisions
            &&& r.0.agent(task.to_agent) matches Some(a) && a.state is Blocked && a.current_task_id
                == w.agent(task.to_agent)->Some_0.current_task_id
        }),
{
    broadcast use {found_after_put, found_has_its_key, queueing_leaves_duties};

    lemma_ended(w, task, payload.status, now);
    let ended = w.end_round(task, payload.status, now);
    let final_task = ended.1->Ok_0;
    assert(same_duty(w.agent(task.to_agent), ended.0.agent(task.to_agent)));
    let noted = ended.0.note_task(task.task_id, history_event, final_task.state, raw).say(
        task.to_agent,
        "["@ + stream_label + "] "@ + raw,
        now,
    );
    assert(noted.agents == ended.0.agents && noted.tasks == ended.0.tasks);
    let next = agent_state_for(final_task.state);
    let settled = match thread_id {
        Some(id) => noted.agent_after_round(task.to_agent, Some(id), next, completed_at, now),
        None => noted.set_agent_state(task.to_agent, next, now),
    };
    assert(settled.1 is Ok);
    assert(settled.0.agent(task.to_agent) matches Some(a) && a.state is Blocked);
    let r = told(
        w,
        task,
        payload,
        thread_id,
        completed_at,
        raw,
        history_event,
        stream_label,
        now,
    );
    assert(same_duty(settled.0.agent(task.to_agent), r.0.agent(task.to_agent)));
}

/// A round that ends with a report or waits for a decision is resolved at once exactly
/// where its task names both an analyzer and a standing decision: the task then waits
/// for its next round with the decision acknowledged.
pub proof fn standing_decision_resolves_a_report(
    w: World,
    task: TaskModel,
    payload: PayloadModel,
    thread_id: Option<Seq<char>>,
    completed_at: Timestamp,
    raw: Seq<char>,
    history_event: Seq<char>,
    stream_label: Seq<char>,
    decision_id: Seq<char>,
    now: Timestamp,
)
    requires
        w.task(task.task_id) matches Some(t) && t.state is Running && t.to_agent == task.to_agent
            && t.auto_resolve_by is Some && t.auto_resolve_summary is Some,
        w.agent(task.to_agent) is Some,
        !(payload.status is Result),
        !filed(w.decisions, decision_id),
        decided_before(w, task.task_id, now),
    ensures
        ({
            let t = w.task(task.task_id)->Some_0;
            let r = w.finalize_round(
                task,
                payload,
                thread_id,
                completed_at,
                raw,
                history_event,
                stream_label,
                decision_id,
                now,
            );
            &&& r.1 matches Ok(o)
            &&& o.task.state is Pending && r.0.task(task.task_id) == Some(o.task)
            &&& o.decision matches Some(d) && d.decision_id == decision_id
            &&& o.task.latest_decision_id == Some(decision_id) && o.task.latest_decision_status
                == Some("acknowledged"@)
            &&& r.0.agent(task.to_agent) matches Some(a) && a.state is Busy && a.current_task_id
                == Some(task.task_id)
        }),
{
    broadcast use {found_after_put, found_has_its_key};

    lemma_told(
        w,
        task,
        payload,
        thread_id,
        completed_at,
        raw,
        history_event,
        stream_label,
        decision_id,
        now,
    );
    let r = told(
        w,
        task,
        payload,
        thread_id,
        completed_at,
        raw,
        history_event,
        stream_label,
        now,
    );
    let analyzer = r.1.auto_resolve_by->Some_0;
    let summary = r.1.auto_resolve_summary->Some_0;
    let said = r.0.say(
        analyzer,
        "[AUTO_RESOLVE] task="@ + r.1.task_id + " status="@ + crate::json::json_text(
            crate::json::JsonModel::Text(payload.status.label()),
        ),
        now,
    );
    assert(said.tasks == r.0.tasks && said.decisions == r.0.decisions && said.agents
        == r.0.agents);
    assert(r.1.task_id == task.task_id);
    resolving_reopens_the_task(said, task.task_id, analyzer, summary, decision_id, now);
    resolving_tells_the_decision(said, task.task_id, analyzer, summary, decision_id, now);
    let done = said.resolve_task(task.task_id, analyzer, summary, decision_id, now);
    assert(done.0.agent(task.to_agent) is Some) by {
        resolving_loses_no_agent(
            said,
            task.task_id,
            analyzer,
            summary,
            decision_id,
            now,
            task.to_agent,
        );
    }
}

/// The decision that resolves a task is the one that was asked for.
proof fn resolving_tells_the_decision(
    w: World,
    task_id: Seq<char>,
    analyzer: Seq<char>,
    summary: Seq<char>,
    decision_id: Seq<char>,
    now: Timestamp,
)
    ensures
        w.resolve_task(task_id, analyzer, summary, decision_id, now).1 matches Ok(d)
            ==> d.decision.decision_id == decision_id,
{
}

proof fn resolving_loses_no_agent(
    w: World,
    task_id: Seq<char>,
    analyzer: Seq<char>,
    summary: Seq<char>,
    decision_id: Seq<char>,
    now: Timestamp,
    name: Seq<char>,
)
    requires
        w.agent(name) is Some,
        w.task(task_id) matches Some(t) && t.to_agent == name && (t.state is Reported
            || t.state is BlockedWaitingDecision || t.state is Analyzed),
        !filed(w.decisions, decision_id),
        decided_before(w, task_id, now),
    ensures
        w.resolve_task(task_id, analyzer, summary, decision_id, now).0.agent(name) is Some,
{
    broadcast use {found_after_put, found_has_its_key};

    let t = w.task(task_id)->Some_0;
    let looked = if t.state is Analyzed {
        w
    } else {
        assert(analyzable()[0] == TaskState::Reported);
        assert(analyzable()[1] == TaskState::BlockedWaitingDecision);
        assert(analyzable().contains(t.state));
        transition_moves_the_task(w, t, TaskState::Analyzed, "main_analyzed"@, None, now);
        let moved = w.transition(t, TaskState::Analyzed, "main_analyzed"@, None, now);
        assert(same_duty(w.agent(name), moved.0.agent(name)));
        w.analyze_task(task_id, analyzer, now).0
    };
    assert(looked.agent(name) is Some);
    lemma_sent(looked, task_id, analyzer, name, summary, decision_id, now);
    let sent = looked.send_decision(task_id, analyzer, name, summary, decision_id, now);
    assert(same_duty(looked.agent(name), sent.0.agent(name)));
    let d = sent.1->Ok_0;
    lemma_pushed_is_newest(looked.decisions, d, Some(name), true);
    lemma_acknowledged(sent.0, task_id, name, false, d, now);
    let acked = sent.0.acknowledge_decision(task_id, name, false, now);
    let u = acked.0.task(task_id)->Some_0;
    transition_moves_the_task(acked.0, u, TaskState::Pending, "task_reopened"@, Some(name), now);
    let moved = acked.0.transition(u, TaskState::Pending, "task_reopened"@, Some(name), now);
    assert(same_duty(acked.0.agent(name), moved.0.agent(name)));
}

/// A round that ends with a result, or whose task has no standing decision, waits for
/// the main agent: its task is reported or waits for a decision, its agent is blocked
/// and stays bound, and the round is counted.
pub proof fn report_waits_for_the_main_agent(
    w: World,
    task: TaskModel,
    payload: PayloadModel,
    thread_id: Option<Seq<char>>,
    completed_at: Timestamp,
    raw: Seq<char>,
    history_event: Seq<char>,
    stream_label: Seq<char>,
    decision_id: Seq<char>,
    now: Timestamp,
)
    requires
        w.task(task.task_id) matches Some(t) && t.state is Running && t.to_agent == task.to_agent
            && (payload.status is Result || t.auto_resolve_by is None || t.auto_resolve_summary
            is None),
        w.agent(task.to_agent) is Some,
    ensures
        ({
            let t = w.task(task.task_id)->Some_0;
            let r = w.finalize_round(
                task,
                payload,
                thread_id,
                completed_at,
                raw,
                history_event,
                stream_label,
                decision_id,
                now,
            );
            &&& r.1 matches Ok(o)
            &&& o.decision is None && o.task.state == state_after(payload.status)
            &&& r.0.task(task.task_id) == Some(o.task) && same_task(t, o.task)
            &&& o.task.latest_child_summary == Some(payload.summary)
            &&& o.task.round_count == (if t.round_count == u32::MAX {
                u32::MAX
            } else {
                (t.round_count + 1) as u32
            })
            &&& r.0.agent(task.to_agent) matches Some(a) && a.state is Blocked && a.current_task_id
                == w.agent(task.to_agent)->Some_0.current_task_id
        }),
{
    lemma_told(
        w,
        task,
        payload,
        thread_id,
        completed_at,
        raw,
        history_event,
        stream_label,
        decision_id,
        now,
    );
}

/// Cancelling a task whose agent has no live session gives it up, whatever it waits
/// for, and its agent rests without a task. A task with a live session, one on which
/// a decision is out, and one that is over are refused, and nothing changes.
pub proof fn cancelling_frees_the_agent(
    w: World,
    task_id: Seq<char>,
    requested_by: Seq<char>,
    now: Timestamp,
)
    requires
        w.agent(requested_by) is Some,
        w.task(task_id) is Some,
    ensures
        ({
            let t = w.task(task_id)->Some_0;
            let r = w.cancel_task(task_id, requested_by, now);
            let live = w.agent(t.to_agent) matches Some(a) && a.current_task_id == Some(task_id)
                && a.current_session_id is Some;
            if !live && !terminal(t.state) && !(t.state is DecisionSent) {
                &&& r.1 == Ok::<TaskModel, Seq<char>>(entered(t, TaskState::Cancelled, now))
                &&& r.0.task(task_id) == Some(entered(t, TaskState::Cancelled, now))
                &&& (w.agent(t.to_agent) matches Some(a) && a.current_task_id == Some(task_id))
                    ==> (r.0.agent(t.to_agent) matches Some(b) && b.state is Idle
                    && b.current_task_id is None)
            } else {
                r.1 is Err && r.0 == w
            }
        }),
{
    broadcast use {found_after_put, found_has_its_key};

    let t = w.task(task_id)->Some_0;
    let all = cancellable();
    assert(all[0] == TaskState::Pending && all[1] == TaskState::Accepted && all[2]
        == TaskState::Running && all[3] == TaskState::Completed && all[4] == TaskState::Reported
        && all[5] == TaskState::Analyzed && all[6] == TaskState::BlockedWaitingDecision);
    assert(all.contains(t.state) <==> !terminal(t.state) && !(t.state is DecisionSent));
    transition_moves_the_task(w, t, TaskState::Cancelled, "task_cancelled"@, None, now);
    let moved = w.transition(t, TaskState::Cancelled, "task_cancelled"@, None, now);
    assert(same_duty(w.agent(t.to_agent), moved.0.agent(t.to_agent)));
}

/// A task that failed or was cancelled is retried where its agent may take a task: it
/// waits again and its agent is bound to it. Any other retry is refused, and nothing
/// changes.
pub proof fn retrying_binds_the_agent_again(
    w: World,
    task_id: Seq<char>,
    requested_by: Seq<char>,
    now: Timestamp,
)
    requires
        w.agent(requested_by) is Some,
        w.task(task_id) is Some,
    ensures
        ({
            let t = w.task(task_id)->Some_0;
            let r = w.retry_task(task_id, requested_by, now);
            let may = w.agent(t.to_agent) matches Some(a) && new_task_check(a) is Ok;
            if may && (t.state is Failed || t.state is Cancelled) {
                &&& r.1 matches Ok(u)
                &&& u.state is Pending && u.closed_at is None && same_task(t, u)
                &&& r.0.task(task_id) == Some(u)
                &&& r.0.agent(t.to_agent) matches Some(b) && b.state is Busy && b.current_task_id
                    == Some(task_id)
            } else {
                r.1 is Err && r.0 == w
            }
        }),
{
    broadcast use {found_after_put, found_has_its_key};

}

/// A task that was cancelled can be retried by its agent, where that was bootstrapped
/// and bound to it without a session.
pub proof fn cancelled_task_can_be_retried(
    w: World,
    task_id: Seq<char>,
    requested_by: Seq<char>,
    now: Timestamp,
    later: Timestamp,
)
    requires
        w.agent(requested_by) is Some,
        w.task(task_id) matches Some(t) && !terminal(t.state) && !(t.state is DecisionSent) && (
        w.agent(t.to_agent) matches Some(a) && a.current_task_id == Some(task_id)
            && a.current_session_id is None && a.bootstrap_state is Ready),
    ensures
        ({
            let cancelled = w.cancel_task(task_id, requested_by, now);
            let retried = cancelled.0.retry_task(task_id, requested_by, later);
            &&& cancelled.1 is Ok
            &&& retried.1 matches Ok(u)
            &&& u.state is Pending && same_task(w.task(task_id)->Some_0, u)
        }),
{
    broadcast use {found_after_put, found_has_its_key};

    cancelling_frees_the_agent(w, task_id, requested_by, now);
    let t = w.task(task_id)->Some_0;
    let r = w.cancel_task(task_id, requested_by, now);
    transition_moves_the_task(w, t, TaskState::Cancelled, "task_cancelled"@, None, now);
    let moved = w.transition(t, TaskState::Cancelled, "task_cancelled"@, None, now);
    assert(same_duty(w.agent(t.to_agent), moved.0.agent(t.to_agent)));
    assert(same_duty(w.agent(requested_by), moved.0.agent(requested_by)));
    assert(r.0.agent(requested_by) is Some);
    retrying_binds_the_agent_again(r.0, task_id, requested_by, later);
}

/// A round that breaks down leaves its task failed and its agent blocked without a
/// task: it gets no new task before it is recovered.
pub proof fn failed_round_blocks_the_agent(
    w: World,
    start: crate::rounds::RoundStartModel,
    message: Seq<char>,
    now: Timestamp,
)
    requires
        w.task(start.task.task_id) matches Some(t) && t.state is Running && t.to_agent
            == start.task.to_agent,
        w.agent(start.task.to_agent) is Some,
    ensures
        ({
            let r = w.fail_task_round(start, message, now);
            &&& r.1 is Ok
            &&& r.0.task(start.task.task_id) matches Some(u) && u.state is Failed && u.closed_at
                == Some(now)
            &&& r.0.agent(start.task.to_agent) matches Some(a) && a.state is Blocked
                && a.current_task_id is None && new_task_check(a) is Err && ad_hoc_check(a) is Err
        }),
{
    broadcast use {found_after_put, found_has_its_key};

    let t = w.task(start.task.task_id)->Some_0;
    transition_moves_the_task(
        w,
        t,
        TaskState::Failed,
        "task_failed"@,
        Some(start.task.to_agent),
        now,
    );
    let moved = w.transition(
        t,
        TaskState::Failed,
        "task_failed"@,
        Some(start.task.to_agent),
        now,
    );
    assert(same_duty(w.agent(start.task.to_agent), moved.0.agent(start.task.to_agent)));
}

/// A decision that could be sent is followed through.
proof fn lemma_decided(
    w: World,
    task_id: Seq<char>,
    issued_by: Seq<char>,
    target: Seq<char>,
    summary: Seq<char>,
    auto_close: bool,
    decision_id: Seq<char>,
    now: Timestamp,
)
    requires
        w.task(task_id) matches Some(t) && t.to_agent == target && t.state is Analyzed,
    ensures
        w.decide_task(task_id, issued_by, target, summary, auto_close, decision_id, now).1 is Ok,
{
    broadcast use {found_after_put, found_has_its_key};

    lemma_sent(w, task_id, issued_by, target, summary, decision_id, now);
    let sent = w.send_decision(task_id, issued_by, target, summary, decision_id, now);
    let d = sent.1->Ok_0;
    newest_decision_is_newest(sent.0.decisions, task_id, Some(target), true);
    lemma_place(sent.0.decisions, decision_id);
    assert(found(sent.0.decisions, decision_id) == Some(d));
    let p = place(sent.0.decisions, decision_id);
    assert(decision_fits(sent.0.decisions[p], task_id, Some(target), true));
    let open = newest_decision(sent.0.decisions, task_id, Some(target), true)->Some_0;
    lemma_acknowledged(sent.0, task_id, target, auto_close, open, now);
    let acked = sent.0.acknowledge_decision(task_id, target, auto_close, now);
    let t = acked.0.task(task_id)->Some_0;
    assert(t.state is DecisionSent && t.to_agent == target);
}

proof fn lemma_resolved(
    w: World,
    task_id: Seq<char>,
    analyzer: Seq<char>,
    summary: Seq<char>,
    decision_id: Seq<char>,
    now: Timestamp,
)
    requires
        w.task(task_id) matches Some(t) && (t.state is Reported || t.state is BlockedWaitingDecision
            || t.state is Analyzed),
    ensures
        w.resolve_task(task_id, analyzer, summary, decision_id, now).1 is Ok,
{
    broadcast use {found_after_put, found_has_its_key};

    let t = w.task(task_id)->Some_0;
    let looked = if t.state is Analyzed {
        w
    } else {
        assert(analyzable()[0] == TaskState::Reported);
        assert(analyzable()[1] == TaskState::BlockedWaitingDecision);
        assert(analyzable().contains(t.state));
        transition_moves_the_task(w, t, TaskState::Analyzed, "main_analyzed"@, None, now);
        w.analyze_task(task_id, analyzer, now).0
    };
    lemma_decided(looked, task_id, analyzer, t.to_agent, summary, false, decision_id, now);
}

proof fn lemma_accepted(w: World, task_id: Seq<char>, agent: Seq<char>, now: Timestamp)
    ensures
        w.accept_and_run(task_id, agent, now).1 is Err ==> w.accept_and_run(task_id, agent, now).0
            == w,
{
    broadcast use {found_after_put, found_has_its_key};

    if let Some(t) = w.task(task_id) {
        transition_moves_the_task(
            w,
            t,
            TaskState::Accepted,
            "task_accepted"@,
            Some(agent),
            now,
        );
    }
}

/// Whether the request may be refused after a part of it was done: a report of an
/// agent that is not registered, the closing of a task that is closed, and the stop
/// of a session that belongs to another agent.
pub open spec fn may_stop_halfway(w: World, request: ControlRequest) -> bool {
    match request {
        ControlRequest::SubmitVisibleTaskRound { task_id, .. } => w.task(task_id@) matches Some(t)
            && w.agent(t.to_agent) is None,
        ControlRequest::CloseTask { task_id, .. } => w.task(task_id@) matches Some(t)
            && t.state is Closed,
        ControlRequest::StopAgentSession { agent } => w.agent(agent@) matches Some(a)
            && a.current_session_id matches Some(id) && found(w.active_sessions, id) matches Some(
            live,
        ) && live.agent_name != agent@,
        _ => false,
    }
}

proof fn refused_decision_changes_nothing(
    w: World,
    request: ControlRequest,
    facts: RequestFacts,
    fresh: Seq<char>,
    now: Timestamp,
)
    requires
        matter(request) is Decision,
        w.dispatch(request, facts, fresh, now).1 is Err,
        !may_stop_halfway(w, request),
    ensures
        w.dispatch(request, facts, fresh, now).0 == w,
{
    broadcast use {found_after_put, found_has_its_key};

    match request {
        ControlRequest::SubmitVisibleTaskRound { task_id, agent, payload } => {
            if let Some(t) = w.task(task_id@) {
                if t.to_agent == agent@ && t.state is Running {
                    let decision_id = tagged("D-"@, fresh);
                    let raw = facts.rendered_payload@;
                    lemma_told(
                        w,
                        t,
                        payload@,
                        None,
                        now,
                        raw,
                        "visible_task_round_payload"@,
                        "VISIBLE_TASK_ROUND"@,
                        decision_id,
                        now,
                    );
                    let r = told(
                        w,
                        t,
                        payload@,
                        None,
                        now,
                        raw,
                        "visible_task_round_payload"@,
                        "VISIBLE_TASK_ROUND"@,
                        now,
                    );
                    if r.1.auto_resolve_by is Some && r.1.auto_resolve_summary is Some {
                        let analyzer = r.1.auto_resolve_by->Some_0;
                        let said = r.0.say(
                            analyzer,
                            "[AUTO_RESOLVE] task="@ + r.1.task_id + " status="@
                                + crate::json::json_text(
                                crate::json::JsonModel::Text(payload@.status.label()),
                            ),
                            now,
                        );
                        lemma_resolved(
                            said,
                            r.1.task_id,
                            analyzer,
                            r.1.auto_resolve_summary->Some_0,
                            decision_id,
                            now,
                        );
                    }
                }
            }
        },
        ControlRequest::ResolveTask { task_id, analyzer, summary } => {
            if let Some(t) = w.task(task_id@) {
                if t.state is Reported || t.state is BlockedWaitingDecision || t.state is Analyzed {
                    lemma_resolved(
                        w,
                        task_id@,
                        analyzer@,
                        summary@,
                        tagged("D-"@, fresh),
                        now,
                    );
                }
            }
        },
        ControlRequest::SendDecision {
            task_id,
            issued_by,
            target_agent,
            summary,
            auto_close,
        } => {
            if let Some(t) = w.task(task_id@) {
                if t.to_agent == target_agent@ && t.state is Analyzed {
                    lemma_decided(
                        w,
                        task_id@,
                        issued_by@,
                        target_agent@,
                        summary@,
                        auto_close,
                        tagged("D-"@, fresh),
                        now,
                    );
                }
            }
        },
        ControlRequest::CloseTask { task_id, agent } => {
            if let Some(t) = w.task(task_id@) {
                if t.to_agent == agent@ && t.state is DecisionSent {
                    if let Some(d) = newest_decision(w.decisions, task_id@, Some(agent@), true) {
                        lemma_acknowledged(w, task_id@, agent@, true, d, now);
                    }
                }
            }
        },
        _ => {},
    }
}

/// A request that is refused changes nothing, unless it is one of those that may be
/// refused after a part of it was done.
pub proof fn refused_request_changes_nothing(
    w: World,
    request: ControlRequest,
    facts: RequestFacts,
    fresh: Seq<char>,
    now: Timestamp,
)
    requires
        w.dispatch(request, facts, fresh, now).1 is Err,
        !may_stop_halfway(w, request),
    ensures
        w.dispatch(request, facts, fresh, now).0 == w,
{
    broadcast use {found_after_put, found_has_its_key};

    match matter(request) {
        Matter::Decision => refused_decision_changes_nothing(w, request, facts, fresh, now),
        Matter::Task => match request {
            ControlRequest::BeginVisibleTask { agent } => {
                if let Some(a) = w.agent(agent@) {
                    if let Some(id) = a.current_task_id {
                        if let Some(t) = w.task(id) {
                            lemma_accepted(w, t.task_id, agent@, now);
                        }
                    }
                }
            },
            ControlRequest::CancelTask { task_id, requested_by } => {
                if w.agent(requested_by@) is Some && w.task(task_id@) is Some {
                    cancelling_frees_the_agent(w, task_id@, requested_by@, now);
                }
            },
            _ => {},
        },
        Matter::Round => match request {
            ControlRequest::RunTaskRound { task_id } => {
                if let Some(t) = w.task(task_id@) {
                    lemma_accepted(w, t.task_id, t.to_agent, now);
                }
            },
            _ => {},
        },
        _ => {},
    }
}

} // verus!
