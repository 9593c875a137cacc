//! Who is told when a task moves: whose mailbox gets which delivery, and that it carries
//! the task.

use vstd::prelude::*;

use crate::bridge::queue_in_order;
use crate::decision::{latest_decision, newest_decision_is_newest};
use crate::delivery::{delivery_is_for_one, queued_delivery_waits};
use crate::draft::agent_state_for;
use crate::models::{
    BridgeDeliveryKind, BridgeServerModel, DecisionModel, DraftModel, PayloadModel, TaskModel,
    TaskRoundStatus, TaskState,
};
use crate::promises::{found_after_put, found_has_its_key};
use crate::state::{EffectModel, World};
use crate::table::found;
use crate::time::Timestamp;

verus! {

/// The agent is registered, and its mailbox is in order and can take another delivery.
pub open spec fn can_be_told(w: World, agent: Seq<char>) -> bool {
    &&& w.agent(agent) is Some
    &&& found(w.bridge_queues, agent) matches Some(q) ==> queue_in_order(q) && q.next_delivery_id
        < u64::MAX
}

/// The agent's mailbox has become longer by one delivery at its end, of this kind, which
/// carries the task as it is now and says why it was sent.
pub open spec fn is_told(
    before: World,
    after: World,
    agent: Seq<char>,
    kind: BridgeDeliveryKind,
    task: TaskModel,
    reason: Seq<char>,
) -> bool {
    let had = before.pending_deliveries(agent);
    let has = after.pending_deliveries(agent);
    &&& has.len() == had.len() + 1
    &&& has.drop_last() == had
    &&& has.last().kind == kind
    &&& has.last().task == Some(task)
    &&& has.last().agent == agent
    &&& has.last().reason == Some(reason)
    &&& has.last().decision matches Some(d) ==> d.task_id == task.task_id
    &&& forall|i: int|
        0 <= i < had.len() ==> (#[trigger] had[i]).delivery_id < has.last().delivery_id
}

/// No mailbox but the given one has changed.
pub open spec fn no_other_is_told(before: World, after: World, agent: Seq<char>) -> bool {
    forall|n: Seq<char>|
        n != agent ==> #[trigger] after.pending_deliveries(n) == before.pending_deliveries(n)
}

/// No mailbox has changed.
pub open spec fn none_is_told(before: World, after: World) -> bool {
    forall|n: Seq<char>| #[trigger]
        after.pending_deliveries(n) == before.pending_deliveries(n)
}

/// What queueing does to a world in which nothing was queued since.
proof fn lemma_told_of(
    w: World,
    v: World,
    recipient: Seq<char>,
    kind: BridgeDeliveryKind,
    task: TaskModel,
    decision: Option<DecisionModel>,
    reason: Seq<char>,
    now: Timestamp,
)
    requires
        can_be_told(w, recipient),
        v.bridge_queues == w.bridge_queues,
        v.agent(recipient) is Some,
        decision matches Some(d) ==> d.task_id == task.task_id,
    ensures
        ({
            let after = v.queue_bridge_delivery(
                recipient,
                kind,
                Some(task),
                decision,
                Some(reason),
                now,
            );
            &&& is_told(w, after, recipient, kind, task, reason)
            &&& no_other_is_told(w, after, recipient)
        }),
{
    let after = v.queue_bridge_delivery(recipient, kind, Some(task), decision, Some(reason), now);
    queued_delivery_waits(v, recipient, kind, Some(task), decision, Some(reason), now);
    let had = w.pending_deliveries(recipient);
    let has = after.pending_deliveries(recipient);
    assert(has.drop_last() =~= had);
    assert forall|n: Seq<char>| n != recipient implies #[trigger] after.pending_deliveries(n)
        == w.pending_deliveries(n) by {
        delivery_is_for_one(v, recipient, kind, Some(task), decision, Some(reason), now, n);
    }
}

proof fn lemma_latest_is_on_the_task(decisions: Seq<DecisionModel>, task_id: Seq<char>)
    ensures
        latest_decision(decisions, task_id) matches Some(d) ==> d.task_id == task_id,
{
    newest_decision_is_newest(decisions, task_id, None, false);
}

/// What the task's state tells, and to whom: its own agent of a task that waits for it,
/// that was cancelled or that was closed, and the agent that asked for it of a report. No
/// other state is told of, and nobody else is told.
pub open spec fn state_is_told(
    before: World,
    after: World,
    task: TaskModel,
    reason: Seq<char>,
) -> bool {
    let to = task.to_agent;
    let from = task.from_agent;
    &&& task.state == TaskState::Pending && can_be_told(before, to) ==> is_told(
        before,
        after,
        to,
        BridgeDeliveryKind::TaskDispatch,
        task,
        reason,
    ) && no_other_is_told(before, after, to)
    &&& task.state == TaskState::Cancelled && can_be_told(before, to) ==> is_told(
        before,
        after,
        to,
        BridgeDeliveryKind::TaskCancelled,
        task,
        reason,
    ) && no_other_is_told(before, after, to)
    &&& task.state == TaskState::Closed && can_be_told(before, to) ==> is_told(
        before,
        after,
        to,
        BridgeDeliveryKind::TaskClosed,
        task,
        reason,
    ) && no_other_is_told(before, after, to)
    &&& (task.state == TaskState::Reported || task.state == TaskState::BlockedWaitingDecision)
        && can_be_told(before, from) ==> is_told(
        before,
        after,
        from,
        BridgeDeliveryKind::TaskFeedback,
        task,
        reason,
    ) && no_other_is_told(before, after, from)
    &&& (task.state == TaskState::Accepted || task.state == TaskState::Running || task.state
        == TaskState::Completed || task.state == TaskState::Analyzed || task.state
        == TaskState::DecisionSent || task.state == TaskState::Failed) ==> none_is_told(
        before,
        after,
    )
}

/// The same agents are registered, with the same mailboxes.
spec fn same_post(w: World, v: World) -> bool {
    &&& v.bridge_queues == w.bridge_queues
    &&& forall|n: Seq<char>| (#[trigger] v.agent(n)) is Some <==> w.agent(n) is Some
}

proof fn lemma_state_is_told_from(
    w: World,
    v: World,
    task: TaskModel,
    reason: Seq<char>,
    now: Timestamp,
)
    requires
        same_post(w, v),
    ensures
        state_is_told(w, v.sync_bridge_for_task(task, reason, now), task, reason),
{
    let decision = latest_decision(v.decisions, task.task_id);
    lemma_latest_is_on_the_task(v.decisions, task.task_id);
    assert(v.agent(task.to_agent) is Some <==> w.agent(task.to_agent) is Some);
    assert(v.agent(task.from_agent) is Some <==> w.agent(task.from_agent) is Some);
    if task.state == TaskState::Pending && can_be_told(w, task.to_agent) {
        let kind = BridgeDeliveryKind::TaskDispatch;
        lemma_told_of(w, v, task.to_agent, kind, task, decision, reason, now);
    }
    if task.state == TaskState::Cancelled && can_be_told(w, task.to_agent) {
        let kind = BridgeDeliveryKind::TaskCancelled;
        lemma_told_of(w, v, task.to_agent, kind, task, decision, reason, now);
    }
    if task.state == TaskState::Closed && can_be_told(w, task.to_agent) {
        let kind = BridgeDeliveryKind::TaskClosed;
        lemma_told_of(w, v, task.to_agent, kind, task, decision, reason, now);
    }
    if (task.state == TaskState::Reported || task.state == TaskState::BlockedWaitingDecision)
        && can_be_told(w, task.from_agent) {
        let kind = BridgeDeliveryKind::TaskFeedback;
        lemma_told_of(w, v, task.from_agent, kind, task, decision, reason, now);
    }
}

/// The agent that a task's state concerns is told of the task, and nobody else is.
pub proof fn state_is_told_to_whom_it_concerns(
    w: World,
    task: TaskModel,
    reason: Seq<char>,
    now: Timestamp,
)
    ensures
        state_is_told(w, w.sync_bridge_for_task(task, reason, now), task, reason),
{
    assert(same_post(w, w));
    lemma_state_is_told_from(w, w, task, reason, now);
}

/// A connected bridge is sent what is put into its agent's mailbox, at once.
pub proof fn connected_bridge_is_sent_the_delivery(
    w: World,
    recipient: Seq<char>,
    kind: BridgeDeliveryKind,
    task: TaskModel,
    decision: Option<DecisionModel>,
    reason: Seq<char>,
    now: Timestamp,
)
    requires
        can_be_told(w, recipient),
        found(w.active_bridges, recipient) is Some,
    ensures
        ({
            let link = found(w.active_bridges, recipient)->Some_0;
            let after = w.queue_bridge_delivery(
                recipient,
                kind,
                Some(task),
                decision,
                Some(reason),
                now,
            );
            after.outbox.last() == (EffectModel::SendBridge {
                session_id: link.session_id,
                message: BridgeServerModel::Delivery {
                    session_id: link.session_id,
                    delivery: after.pending_deliveries(recipient).last(),
                },
            })
        }),
{
    queued_delivery_waits(w, recipient, kind, Some(task), decision, Some(reason), now);
    let had = w.pending_deliveries(recipient);
}

/// A task that enters a state in which it waits, was cancelled or was closed ends its
/// agent's mailbox with that, in one delivery; a step into any other state tells nobody.
pub proof fn step_is_told(
    w: World,
    task: TaskModel,
    next: TaskState,
    event_type: Seq<char>,
    actor: Option<Seq<char>>,
    now: Timestamp,
)
    ensures
        ({
            let r = w.transition(task, next, event_type, actor, now);
            &&& r.1.to_agent == task.to_agent
            &&& r.1.state == next
            &&& next == TaskState::Pending || next == TaskState::Cancelled || next
                == TaskState::Closed ==> state_is_told(w, r.0, r.1, event_type)
            &&& next != TaskState::Pending && next != TaskState::Cancelled && next
                != TaskState::Closed ==> none_is_told(w, r.0)
        }),
{
    let r = w.transition(task, next, event_type, actor, now);
    lemma_sync_from_any(w, r.1, event_type, now);
}

proof fn lemma_sync_from_any(w: World, task: TaskModel, reason: Seq<char>, now: Timestamp)
    ensures
        forall|v: World|
            v.bridge_queues == w.bridge_queues && v.agents == w.agents ==> state_is_told(
                w,
                #[trigger] v.sync_bridge_for_task(task, reason, now),
                task,
                reason,
            ),
{
    assert forall|v: World|
        v.bridge_queues == w.bridge_queues && v.agents == w.agents implies state_is_told(
        w,
        #[trigger] v.sync_bridge_for_task(task, reason, now),
        task,
        reason,
    ) by {
        assert(same_post(w, v));
        lemma_state_is_told_from(w, v, task, reason, now);
    }
}

/// A task that was created ends the mailbox of its agent with a dispatch that carries it.
pub proof fn created_task_is_dispatched(
    w: World,
    from: Seq<char>,
    to: Seq<char>,
    draft: DraftModel,
    by: Option<Seq<char>>,
    summary: Option<Seq<char>>,
    why: Seq<char>,
    task_id: Seq<char>,
    now: Timestamp,
)
    requires
        can_be_told(w, to),
    ensures
        w.create_task(from, to, draft, by, summary, why, task_id, now) matches (after, Ok(task))
            ==> is_told(
            w,
            after,
            to,
            BridgeDeliveryKind::TaskDispatch,
            task,
            "task_created"@,
        ) && no_other_is_told(w, after, to),
        w.create_task(from, to, draft, by, summary, why, task_id, now) matches (after, Err(_))
            ==> none_is_told(w, after),
{
    broadcast use {found_after_put, found_has_its_key};

    if let (after, Ok(task)) = w.create_task(from, to, draft, by, summary, why, task_id, now) {
        assert forall|v: World|
            v.bridge_queues == w.bridge_queues && (forall|n: Seq<char>|
                (#[trigger] v.agent(n)) is Some <==> w.agent(n) is Some) implies state_is_told(
            w,
            #[trigger] v.sync_bridge_for_task(task, "task_created"@, now),
            task,
            "task_created"@,
        ) by {
            assert(same_post(w, v));
            lemma_state_is_told_from(w, v, task, "task_created"@, now);
        }
        let kept = World { tasks: crate::table::put(w.tasks, task), ..w };
        assert(kept.agents == w.agents);
        let claimed = kept.claim_task(to, task_id, now);
        assert forall|n: Seq<char>| (#[trigger] claimed.agent(n)) is Some <==> w.agent(n) is Some by {}
    }
}

/// A report ends the mailbox of the agent that asked for the task with what was reported:
/// where the task was reported on or waits for a decision, and otherwise tells nobody of it
/// but of the state that the task is in.
pub proof fn feedback_is_told(
    w: World,
    task: TaskModel,
    status: Seq<char>,
    summary: Option<Seq<char>>,
    blocking: Option<Seq<char>>,
    topic: Option<Seq<char>>,
    details: Option<Seq<char>>,
    event_type: Seq<char>,
    now: Timestamp,
)
    ensures
        ({
            let r = w.child_feedback(
                task,
                status,
                summary,
                blocking,
                topic,
                details,
                event_type,
                now,
            );
            &&& state_is_told(w, r.0, r.1, event_type)
            &&& r.1.state == task.state
            &&& r.1.from_agent == task.from_agent
            &&& r.1.to_agent == task.to_agent
        }),
{
    let r = w.child_feedback(task, status, summary, blocking, topic, details, event_type, now);
    lemma_sync_from_any(w, r.1, event_type, now);
}

proof fn lemma_quiet_step(
    w: World,
    task_id: Seq<char>,
    agent: Seq<char>,
    expected: TaskState,
    next: TaskState,
    event_type: Seq<char>,
    now: Timestamp,
)
    requires
        next != TaskState::Pending,
        next != TaskState::Cancelled,
        next != TaskState::Closed,
    ensures
        ({
            let r = w.transition_task(task_id, agent, expected, next, event_type, now);
            r.0.bridge_queues == w.bridge_queues && r.0.agents == w.agents
        }),
{
}

proof fn lemma_sending_is_quiet(
    w: World,
    task_id: Seq<char>,
    issued_by: Seq<char>,
    target: Seq<char>,
    summary: Seq<char>,
    decision_id: Seq<char>,
    now: Timestamp,
)
    ensures
        ({
            let r = w.send_decision(task_id, issued_by, target, summary, decision_id, now);
            r.0.bridge_queues == w.bridge_queues && r.0.agents == w.agents
        }),
{
    if let Some(t) = w.task(task_id) {
        lemma_quiet_step(
            w,
            t.task_id,
            t.to_agent,
            TaskState::Analyzed,
            TaskState::DecisionSent,
            "decision_sent"@,
            now,
        );
    }
}

proof fn lemma_acknowledging_is_quiet(
    w: World,
    task_id: Seq<char>,
    agent: Seq<char>,
    emit_stream: bool,
    now: Timestamp,
)
    ensures
        ({
            let r = w.acknowledge_decision(task_id, agent, emit_stream, now);
            r.0.bridge_queues == w.bridge_queues && r.0.agents == w.agents
        }),
{
}

proof fn lemma_told_step(
    w: World,
    v: World,
    task_id: Seq<char>,
    agent: Seq<char>,
    expected: TaskState,
    next: TaskState,
    event_type: Seq<char>,
    now: Timestamp,
)
    requires
        v.bridge_queues == w.bridge_queues,
        v.agents == w.agents,
        next == TaskState::Pending || next == TaskState::Closed,
    ensures
        v.transition_task(task_id, agent, expected, next, event_type, now) matches (after, Ok(t))
            ==> state_is_told(w, after, t, event_type) && t.to_agent == agent && t.state == next,
{
    if let (after, Ok(t)) = v.transition_task(task_id, agent, expected, next, event_type, now) {
        step_is_told(v, v.task(task_id)->Some_0, next, event_type, Some(agent), now);
        lemma_same_start(w, v, after, t, event_type);
    }
}

proof fn lemma_same_start(w: World, v: World, after: World, task: TaskModel, reason: Seq<char>)
    requires
        v.bridge_queues == w.bridge_queues,
        v.agents == w.agents,
        state_is_told(v, after, task, reason),
    ensures
        state_is_told(w, after, task, reason),
{
    assert forall|n: Seq<char>| #[trigger] v.pending_deliveries(n) == w.pending_deliveries(n) by {}
    assert forall|n: Seq<char>| can_be_told(v, n) == #[trigger] can_be_told(w, n) by {}
    assert(no_other_is_told(v, after, task.to_agent) ==> no_other_is_told(
        w,
        after,
        task.to_agent,
    )) by {
        if no_other_is_told(v, after, task.to_agent) {
            assert forall|n: Seq<char>| n != task.to_agent implies #[trigger] after.pending_deliveries(
                n,
            ) == w.pending_deliveries(n) by {}
        }
    }
    assert(no_other_is_told(v, after, task.from_agent) ==> no_other_is_told(
        w,
        after,
        task.from_agent,
    )) by {
        if no_other_is_told(v, after, task.from_agent) {
            assert forall|n: Seq<char>| n
                != task.from_agent implies #[trigger] after.pending_deliveries(n)
                == w.pending_deliveries(n) by {}
        }
    }
}

proof fn lemma_same_end(before: World, a: World, b: World, task: TaskModel, reason: Seq<char>)
    requires
        b.bridge_queues == a.bridge_queues,
        state_is_told(before, a, task, reason),
    ensures
        state_is_told(before, b, task, reason),
{
    assert forall|n: Seq<char>| #[trigger] b.pending_deliveries(n) == a.pending_deliveries(n) by {}
    assert(no_other_is_told(before, a, task.to_agent) ==> no_other_is_told(
        before,
        b,
        task.to_agent,
    ));
    assert(no_other_is_told(before, a, task.from_agent) ==> no_other_is_told(
        before,
        b,
        task.from_agent,
    ));
}

/// A task that is opened again after a decision ends the mailbox of its agent with a
/// dispatch that carries it; one that is closed ends it with the closed task.
pub proof fn decided_task_is_told(
    w: World,
    task_id: Seq<char>,
    issued_by: Seq<char>,
    target: Seq<char>,
    summary: Seq<char>,
    auto_close: bool,
    decision_id: Seq<char>,
    now: Timestamp,
)
    requires
        can_be_told(w, target),
    ensures
        w.decide_task(task_id, issued_by, target, summary, auto_close, decision_id, now) matches (
            after,
            Ok(done),
        ) ==> no_other_is_told(w, after, target) && (auto_close ==> is_told(
            w,
            after,
            target,
            BridgeDeliveryKind::TaskClosed,
            done.task,
            "task_closed"@,
        )) && (!auto_close ==> is_told(
            w,
            after,
            target,
            BridgeDeliveryKind::TaskDispatch,
            done.task,
            "task_reopened"@,
        )),
{
    let r = w.decide_task(task_id, issued_by, target, summary, auto_close, decision_id, now);
    if r.1 is Ok {
        lemma_sending_is_quiet(w, task_id, issued_by, target, summary, decision_id, now);
        let sent = w.send_decision(task_id, issued_by, target, summary, decision_id, now);
        if auto_close {
            lemma_closing_is_told(w, sent.0, task_id, target, now);
        } else {
            lemma_reopening_is_told(w, sent.0, task_id, target, now);
        }
    }
}

proof fn lemma_reopening_is_told(
    w: World,
    v: World,
    task_id: Seq<char>,
    agent: Seq<char>,
    now: Timestamp,
)
    requires
        v.bridge_queues == w.bridge_queues,
        v.agents == w.agents,
    ensures
        v.reopen_for_next_round(task_id, agent, now) matches (after, Ok(t)) ==> state_is_told(
            w,
            after,
            t,
            "task_reopened"@,
        ) && t.to_agent == agent && t.state == TaskState::Pending,
{
    let acked = v.acknowledge_decision(task_id, agent, false, now);
    lemma_acknowledging_is_quiet(v, task_id, agent, false, now);
    lemma_told_step(
        w,
        acked.0,
        task_id,
        agent,
        TaskState::DecisionSent,
        TaskState::Pending,
        "task_reopened"@,
        now,
    );
    if let (after, Ok(t)) = v.reopen_for_next_round(task_id, agent, now) {
        let moved = acked.0.transition_task(
            task_id,
            agent,
            TaskState::DecisionSent,
            TaskState::Pending,
            "task_reopened"@,
            now,
        );
        lemma_same_end(w, moved.0, after, t, "task_reopened"@);
    }
}

proof fn lemma_closing_is_told(
    w: World,
    v: World,
    task_id: Seq<char>,
    agent: Seq<char>,
    now: Timestamp,
)
    requires
        v.bridge_queues == w.bridge_queues,
        v.agents == w.agents,
    ensures
        v.close_after_decision(task_id, agent, now) matches (after, Ok(t)) ==> state_is_told(
            w,
            after,
            t,
            "task_closed"@,
        ) && t.to_agent == agent && t.state == TaskState::Closed,
{
    let acked = v.acknowledge_decision(task_id, agent, true, now);
    lemma_acknowledging_is_quiet(v, task_id, agent, true, now);
    lemma_told_step(
        w,
        acked.0,
        task_id,
        agent,
        TaskState::DecisionSent,
        TaskState::Closed,
        "task_closed"@,
        now,
    );
    if let (after, Ok(t)) = v.close_after_decision(task_id, agent, now) {
        let moved = acked.0.transition_task(
            task_id,
            agent,
            TaskState::DecisionSent,
            TaskState::Closed,
            "task_closed"@,
            now,
        );
        lemma_same_end(w, moved.0, after, t, "task_closed"@);
    }
}

/// A task that is opened for its next round, or closed, after a decision that was sent
/// before, ends the mailbox of its agent with that.
pub proof fn reopened_or_closed_task_is_told(
    w: World,
    task_id: Seq<char>,
    agent: Seq<char>,
    now: Timestamp,
)
    requires
        can_be_told(w, agent),
    ensures
        w.reopen_for_next_round(task_id, agent, now) matches (after, Ok(t)) ==> is_told(
            w,
            after,
            agent,
            BridgeDeliveryKind::TaskDispatch,
            t,
            "task_reopened"@,
        ) && no_other_is_told(w, after, agent),
        w.close_after_decision(task_id, agent, now) matches (after, Ok(t)) ==> is_told(
            w,
            after,
            agent,
            BridgeDeliveryKind::TaskClosed,
            t,
            "task_closed"@,
        ) && no_other_is_told(w, after, agent),
{
    lemma_reopening_is_told(w, w, task_id, agent, now);
    lemma_closing_is_told(w, w, task_id, agent, now);
}

/// A report that is resolved ends the mailbox of the task's agent with a dispatch that
/// carries the task.
pub proof fn resolved_task_is_dispatched(
    w: World,
    task_id: Seq<char>,
    analyzer: Seq<char>,
    summary: Seq<char>,
    decision_id: Seq<char>,
    now: Timestamp,
)
    ensures
        w.resolve_task(task_id, analyzer, summary, decision_id, now) matches (after, Ok(done))
            ==> (can_be_told(w, done.task.to_agent) ==> is_told(
            w,
            after,
            done.task.to_agent,
            BridgeDeliveryKind::TaskDispatch,
            done.task,
            "task_reopened"@,
        ) && no_other_is_told(w, after, done.task.to_agent)),
{
    if w.resolve_task(task_id, analyzer, summary, decision_id, now).1 is Ok {
        let task = w.task(task_id)->Some_0;
        let looked = if task.state == TaskState::Analyzed {
            (w, Ok(task))
        } else {
            w.analyze_task(task_id, analyzer, now)
        };
        assert(looked.0.bridge_queues == w.bridge_queues && looked.0.agents == w.agents);
        let sent = looked.0.send_decision(
            task_id,
            analyzer,
            task.to_agent,
            summary,
            decision_id,
            now,
        );
        lemma_sending_is_quiet(
            looked.0,
            task_id,
            analyzer,
            task.to_agent,
            summary,
            decision_id,
            now,
        );
        lemma_reopening_is_told(w, sent.0, task_id, task.to_agent, now);
    }
}

/// A task that is given up ends the mailbox of its agent with the cancelled task.
pub proof fn cancelled_task_is_told(
    w: World,
    task_id: Seq<char>,
    requested_by: Seq<char>,
    now: Timestamp,
)
    ensures
        w.cancel_task(task_id, requested_by, now) matches (after, Ok(t)) ==> (can_be_told(
            w,
            t.to_agent,
        ) ==> is_told(
            w,
            after,
            t.to_agent,
            BridgeDeliveryKind::TaskCancelled,
            t,
            "task_cancelled"@,
        ) && no_other_is_told(w, after, t.to_agent)),
{
    if let (after, Ok(t)) = w.cancel_task(task_id, requested_by, now) {
        let task = w.task(task_id)->Some_0;
        step_is_told(w, task, TaskState::Cancelled, "task_cancelled"@, None, now);
        let moved = w.transition(task, TaskState::Cancelled, "task_cancelled"@, None, now);
        lemma_same_end(w, moved.0, after, t, "task_cancelled"@);
    }
}

/// A report on a completed task ends the mailbox of the agent that asked for it with that
/// report.
pub proof fn reported_task_is_told(
    w: World,
    task_id: Seq<char>,
    agent: Seq<char>,
    blocking: Seq<char>,
    topic: Seq<char>,
    details: Seq<char>,
    now: Timestamp,
)
    ensures
        w.report_task(task_id, agent, blocking, topic, details, now) matches (after, Ok(t)) ==> (
        can_be_told(w, t.from_agent) ==> is_told(
            w,
            after,
            t.from_agent,
            BridgeDeliveryKind::TaskFeedback,
            t,
            "report_payload"@,
        ) && no_other_is_told(w, after, t.from_agent)),
{
    if let (after, Ok(t)) = w.report_task(task_id, agent, blocking, topic, details, now) {
        lemma_quiet_step(
            w,
            task_id,
            agent,
            TaskState::Completed,
            TaskState::Reported,
            "report_submitted"@,
            now,
        );
        lemma_sync_from_any(w, t, "report_payload"@, now);
    }
}

/// A task that is tried again is not sent anew: no mailbox changes.
pub proof fn retried_task_is_not_sent(
    w: World,
    task_id: Seq<char>,
    requested_by: Seq<char>,
    now: Timestamp,
)
    ensures
        none_is_told(w, w.retry_task(task_id, requested_by, now).0),
{
}

/// A round that has ended, and that no standing decision resolves, ends the mailbox of the
/// agent that asked for the task with the report.
pub proof fn ended_round_is_told(
    w: World,
    task: TaskModel,
    payload: PayloadModel,
    thread_id: Option<Seq<char>>,
    completed_at: Timestamp,
    raw: Seq<char>,
    history_event: Seq<char>,
    stream_label: Seq<char>,
    decision_id: Seq<char>,
    now: Timestamp,
)
    requires
        w.task(task.task_id) == Some(task),
        can_be_told(w, task.from_agent),
    ensures
        w.finalize_round(
            task,
            payload,
            thread_id,
            completed_at,
            raw,
            history_event,
            stream_label,
            decision_id,
            now,
        ) matches (after, Ok(done)) ==> (done.decision is None ==> is_told(
            w,
            after,
            task.from_agent,
            BridgeDeliveryKind::TaskFeedback,
            done.task,
            "task_feedback_updated"@,
        ) && no_other_is_told(w, after, task.from_agent)),
{
    broadcast use {found_after_put, found_has_its_key};

    let r = w.finalize_round(
        task,
        payload,
        thread_id,
        completed_at,
        raw,
        history_event,
        stream_label,
        decision_id,
        now,
    );
    let ended = w.end_round(task, payload.status, now);
    lemma_round_end_is_quiet(w, task, payload.status, now);
    if r.1 is Ok && r.1->Ok_0.decision is None {
        let done = r.1->Ok_0;
        assert forall|v: World|
            v.bridge_queues == w.bridge_queues && (forall|n: Seq<char>|
                (#[trigger] v.agent(n)) is Some <==> w.agent(n) is Some) implies state_is_told(
            w,
            #[trigger] v.sync_bridge_for_task(done.task, "task_feedback_updated"@, now),
            done.task,
            "task_feedback_updated"@,
        ) by {
            assert(same_post(w, v));
            lemma_state_is_told_from(w, v, done.task, "task_feedback_updated"@, now);
        }
        let noted = ended.0;
        let next = agent_state_for(ended.1->Ok_0.state);
        let settled = match thread_id {
            Some(id) => noted.agent_after_round(task.to_agent, Some(id), next, completed_at, now),
            None => noted.set_agent_state(task.to_agent, next, now),
        };
        assert forall|n: Seq<char>| (#[trigger] settled.0.agent(n)) is Some <==> w.agent(
            n,
        ) is Some by {}
    }
}

proof fn lemma_round_end_is_quiet(
    w: World,
    task: TaskModel,
    status: TaskRoundStatus,
    now: Timestamp,
)
    requires
        w.task(task.task_id) == Some(task),
    ensures
        ({
            let r = w.end_round(task, status, now);
            &&& r.0.bridge_queues == w.bridge_queues
            &&& r.0.agents == w.agents
            &&& r.1 matches Ok(t) ==> t.from_agent == task.from_agent && (t.state
                == TaskState::Reported || t.state == TaskState::BlockedWaitingDecision)
        }),
{
    broadcast use {found_after_put, found_has_its_key};

    lemma_quiet_step(
        w,
        task.task_id,
        task.to_agent,
        TaskState::Running,
        TaskState::Completed,
        "task_completed"@,
        now,
    );
}

} // verus!
