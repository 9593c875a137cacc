//! An agent stays with its task until the task is over.

use vstd::prelude::*;

use crate::agents::{fresh_agent, role_named};
use crate::backend::{BackendEvent, BackendFinished};
use crate::bridge::{after_ack, enqueued, next_id, queue_or_new, ConnectionModel};
use crate::control::ControlRequest;
use crate::course::Happening;
use crate::decision::newest_decision;
use crate::dispatch::{matter, Matter, RequestFacts};
use crate::draft::{agent_state_for, new_task_check, normal_draft, terminal};
use crate::ids::tagged;
use crate::keeping::{
    course_keeps_order, lemma_kept_distinct, lemma_repair_agents, lemma_repair_tasks,
};
use crate::models::{
    AgentModel, AgentSessionState, AppServerOwner, BridgeClientMessage, BridgeConnectionState,
    BridgeDeliveryKind, BridgeMode, CodexSessionStatus, DecisionModel, DeliveryModel, DraftModel,
    PayloadModel, RoundModel, SessionModel, TaskModel, TaskRoundStatus, TaskState, VisiblePaneKind,
};
use crate::promises::{found_after_put, found_has_its_key, transition_moves_the_task};
use crate::removal::{kept, PlanModel, Removable};
use crate::repair::{is_open, repair_sessions, repair_tasks};
use crate::rounds::RoundStartModel;
use crate::startup::{normal_agents, resolved_prompt, running_sessions};
use crate::state::{EffectModel, LinkModel, QueueModel, World};
use crate::table::{
    distinct, found, lemma_found_at, lemma_place, lemma_place_is, place, put, without, Keyed,
};
use crate::tasks::{cancellable, claimed, entered};
use crate::text::{opt_text, texts};
use crate::time::Timestamp;
use crate::upkeep::kept_are_those_that_stay;
use crate::work::new_task;

verus! {

/// Whether the task is for the agent and not over.
pub open spec fn open_to(w: World, task_id: Seq<char>, agent: Seq<char>) -> bool {
    w.task(task_id) matches Some(t) && t.to_agent == agent && !terminal(t.state)
}

/// Whether the agent works on the task: it points to it, and of the tasks for the agent
/// it is the only one that is not over.
pub open spec fn bound(w: World, agent: Seq<char>, task_id: Seq<char>) -> bool {
    &&& w.agent(agent) matches Some(a) && a.current_task_id == Some(task_id)
    &&& forall|k: Seq<char>| #[trigger] open_to(w, k, agent) <==> k == task_id
}

/// Whether the agent still works on the task and takes no other, unless the task is
/// over or gone.
pub open spec fn bound_while_open(w: World, agent: Seq<char>, task_id: Seq<char>) -> bool {
    is_open(w.tasks, task_id) ==> {
        &&& bound(w, agent, task_id)
        &&& new_task_check(w.agent(agent)->Some_0) is Err
    }
}

/// Whether no other task for the agent is open, and the agent points to this one while
/// it is.
#[verifier::opaque]
spec fn at_most(w: World, child: Seq<char>, held: Seq<char>) -> bool {
    &&& forall|k: Seq<char>| #[trigger] open_to(w, k, child) ==> k == held
    &&& w.task(held) matches Some(t) ==> t.to_agent == child
    &&& open_to(w, held, child) ==> (w.agent(child) matches Some(a) && a.current_task_id == Some(
        held,
    ))
}

proof fn lemma_bound(w: World, child: Seq<char>, held: Seq<char>)
    requires
        bound(w, child, held),
    ensures
        at_most(w, child, held),
        open_to(w, held, child),
        w.agent(child) matches Some(a) && new_task_check(a) is Err,
{
    reveal(at_most);
    assert(open_to(w, held, child));
}

broadcast proof fn at_most_is_bound(w: World, child: Seq<char>, held: Seq<char>)
    requires
        #[trigger] at_most(w, child, held),
    ensures
        bound_while_open(w, child, held),
{
    reveal(at_most);
    if is_open(w.tasks, held) {
        assert(open_to(w, held, child));
    }
}

proof fn lemma_only(w: World, child: Seq<char>, held: Seq<char>, task_id: Seq<char>)
    requires
        at_most(w, child, held),
        open_to(w, task_id, child),
    ensures
        task_id == held,
        w.agent(child) matches Some(a) && a.current_task_id == Some(held),
{
    reveal(at_most);
}

proof fn lemma_elsewhere(w: World, v: World, child: Seq<char>, held: Seq<char>)
    requires
        at_most(w, child, held),
        v.tasks == w.tasks,
        v.agents == w.agents,
    ensures
        at_most(v, child, held),
{
    reveal(at_most);
    assert forall|k: Seq<char>| #[trigger] open_to(v, k, child) implies k == held by {
        assert(open_to(w, k, child));
    }
}

proof fn lemma_put_agent(w: World, v: World, x: AgentModel, child: Seq<char>, held: Seq<char>)
    requires
        at_most(w, child, held),
        v.tasks == w.tasks,
        v.agents == put(w.agents, x),
        x.name == child ==> x.current_task_id == Some(held) || !open_to(w, held, child),
    ensures
        at_most(v, child, held),
{
    broadcast use found_after_put;

    reveal(at_most);
    assert forall|k: Seq<char>| #[trigger] open_to(v, k, child) implies k == held by {
        assert(open_to(w, k, child));
    }
    if open_to(v, held, child) {
        assert(open_to(w, held, child));
    }
}

proof fn lemma_put_task(w: World, v: World, x: TaskModel, child: Seq<char>, held: Seq<char>)
    requires
        at_most(w, child, held),
        v.agents == w.agents,
        v.tasks == put(w.tasks, x),
        w.task(x.task_id) matches Some(t) && t.to_agent == x.to_agent && (terminal(t.state)
            ==> terminal(x.state)),
    ensures
        at_most(v, child, held),
{
    broadcast use found_after_put;

    reveal(at_most);
    assert forall|k: Seq<char>| #[trigger] open_to(v, k, child) implies k == held by {
        assert(open_to(w, k, child));
    }
    if open_to(v, held, child) {
        assert(open_to(w, held, child));
    }
}

broadcast proof fn emit_stays(w: World, child: Seq<char>, held: Seq<char>, effect: EffectModel)
    requires
        at_most(w, child, held),
    ensures
        #![trigger w.emit(effect), at_most(w, child, held)]
        at_most(w.emit(effect), child, held),
{
    lemma_elsewhere(w, w.emit(effect), child, held);
}

broadcast proof fn persist_agent_stays(
    w: World,
    child: Seq<char>,
    held: Seq<char>,
    agent: AgentModel,
)
    requires
        at_most(w, child, held),
        w.agent(agent.name) matches Some(a) && a.current_task_id == agent.current_task_id,
    ensures
        #![trigger w.persist_agent(agent), at_most(w, child, held)]
        at_most(w.persist_agent(agent), child, held),
{
    if agent.name == child && open_to(w, held, child) {
        lemma_only(w, child, held, held);
    }
    lemma_put_agent(w, w.persist_agent(agent), agent, child, held);
}

broadcast proof fn claim_stays(
    w: World,
    child: Seq<char>,
    held: Seq<char>,
    agent: Seq<char>,
    task_id: Seq<char>,
    now: Timestamp,
)
    requires
        at_most(w, child, held),
        open_to(w, task_id, agent),
    ensures
        #![trigger w.claim_task(agent, task_id, now), at_most(w, child, held)]
        at_most(w.claim_task(agent, task_id, now), child, held),
{
    broadcast use found_has_its_key;

    if let Some(a) = w.agent(agent) {
        if agent == child {
            lemma_only(w, child, held, task_id);
        }
        lemma_put_agent(
            w,
            w.claim_task(agent, task_id, now),
            claimed(a, task_id, now),
            child,
            held,
        );
    }
}

proof fn lemma_release(
    w: World,
    child: Seq<char>,
    held: Seq<char>,
    agent: Seq<char>,
    state: AgentSessionState,
    now: Timestamp,
)
    requires
        at_most(w, child, held),
        agent == child ==> !open_to(w, held, child),
    ensures
        at_most(w.release_agent(agent, state, now).0, child, held),
{
    broadcast use found_has_its_key;

    if let Some(a) = w.agent(agent) {
        lemma_put_agent(
            w,
            w.release_agent(agent, state, now).0,
            AgentModel {
                current_task_id: None,
                state,
                last_heartbeat_at: Some(now),
                ..a
            },
            child,
            held,
        );
    }
}

/// Whether the record is the task as it is filed, in all that says whose it is and
/// whether it is over.
spec fn filed_as(w: World, task: TaskModel) -> bool {
    w.task(task.task_id) matches Some(t) && t.to_agent == task.to_agent && t.state == task.state
}

broadcast proof fn persist_task_stays(
    w: World,
    child: Seq<char>,
    held: Seq<char>,
    task: TaskModel,
    event_type: Seq<char>,
)
    requires
        at_most(w, child, held),
        filed_as(w, task),
    ensures
        #![trigger w.persist_task(task, event_type), at_most(w, child, held)]
        at_most(w.persist_task(task, event_type), child, held),
{
    lemma_put_task(w, w.persist_task(task, event_type), task, child, held);
}

broadcast proof fn record_stream_stays(
    w: World,
    child: Seq<char>,
    held: Seq<char>,
    session_id: Option<Seq<char>>,
    agent: Seq<char>,
    stream: Seq<char>,
    content: Seq<char>,
    now: Timestamp,
)
    requires
        at_most(w, child, held),
    ensures
        #![trigger w.record_stream(session_id, agent, stream, content, now), at_most(w, child, held)]
        at_most(w.record_stream(session_id, agent, stream, content, now), child, held),
{
    lemma_elsewhere(
        w,
        w.record_stream(session_id, agent, stream, content, now),
        child,
        held,
    );
}

broadcast proof fn queue_stays(
    w: World,
    child: Seq<char>,
    held: Seq<char>,
    recipient: Seq<char>,
    kind: BridgeDeliveryKind,
    task: Option<TaskModel>,
    decision: Option<DecisionModel>,
    reason: Option<Seq<char>>,
    now: Timestamp,
)
    requires
        at_most(w, child, held),
    ensures
        #![trigger w.queue_bridge_delivery(recipient, kind, task, decision, reason, now), at_most(w, child, held)]
        at_most(
            w.queue_bridge_delivery(recipient, kind, task, decision, reason, now),
            child,
            held,
        ),
{
    broadcast use found_has_its_key;

    if let Some(agent) = w.agent(recipient) {
        let q = queue_or_new(w.bridge_queues, recipient);
        let id = next_id(q);
        let delivery = DeliveryModel {
            delivery_id: id,
            agent: recipient,
            kind,
            task,
            decision,
            reason,
            created_at: now,
        };
        let updated = AgentModel {
            bridge_last_delivery_id: id,
            bridge_pending_delivery_count: enqueued(q.pending, delivery).len() as u32,
            ..agent
        };
        if recipient == child && open_to(w, held, child) {
            lemma_only(w, child, held, held);
        }
        lemma_put_agent(
            w,
            w.queue_bridge_delivery(recipient, kind, task, decision, reason, now),
            updated,
            child,
            held,
        );
    }
}

broadcast proof fn sync_stays(
    w: World,
    child: Seq<char>,
    held: Seq<char>,
    task: TaskModel,
    reason: Seq<char>,
    now: Timestamp,
)
    requires
        at_most(w, child, held),
    ensures
        #![trigger w.sync_bridge_for_task(task, reason, now), at_most(w, child, held)]
        at_most(w.sync_bridge_for_task(task, reason, now), child, held),
{
    broadcast use queue_stays;

}

broadcast proof fn transition_stays(
    w: World,
    child: Seq<char>,
    held: Seq<char>,
    task: TaskModel,
    next: TaskState,
    event_type: Seq<char>,
    actor: Option<Seq<char>>,
    now: Timestamp,
)
    requires
        at_most(w, child, held),
        filed_as(w, task),
        terminal(task.state) ==> terminal(next),
    ensures
        #![trigger w.transition(task, next, event_type, actor, now), at_most(w, child, held)]
        at_most(w.transition(task, next, event_type, actor, now).0, child, held),
{
    broadcast use {emit_stays, sync_stays};

    let updated = entered(task, next, now);
    lemma_put_task(w, w.move_task(updated, event_type, task.state), updated, child, held);
}

/// Where a task was moved, it is filed as it was handed back.
broadcast proof fn transition_task_files(
    w: World,
    task_id: Seq<char>,
    agent: Seq<char>,
    expected: TaskState,
    next: TaskState,
    event_type: Seq<char>,
    now: Timestamp,
)
    ensures
        (#[trigger] w.transition_task(task_id, agent, expected, next, event_type, now)).1 matches Ok(
            t,
        ) ==> {
            let v = w.transition_task(task_id, agent, expected, next, event_type, now).0;
            &&& v.task(task_id) == Some(t)
            &&& t.task_id == task_id && t.to_agent == agent && t.state == next
            &&& w.task(task_id) matches Some(before) && before.to_agent == agent && before.state
                == expected
            &&& forall|k: Seq<char>| k != task_id ==> #[trigger] v.task(k) == w.task(k)
            &&& v.decisions == w.decisions
        },
{
    broadcast use {found_after_put, found_has_its_key};

    if let Some(task) = w.task(task_id) {
        transition_moves_the_task(w, task, next, event_type, Some(agent), now);
    }
}

broadcast proof fn transition_task_stays(
    w: World,
    child: Seq<char>,
    held: Seq<char>,
    task_id: Seq<char>,
    agent: Seq<char>,
    expected: TaskState,
    next: TaskState,
    event_type: Seq<char>,
    now: Timestamp,
)
    requires
        at_most(w, child, held),
        !terminal(expected),
    ensures
        #![trigger w.transition_task(task_id, agent, expected, next, event_type, now), at_most(w, child, held)]
        at_most(
            w.transition_task(task_id, agent, expected, next, event_type, now).0,
            child,
            held,
        ),
{
    broadcast use {transition_stays, found_has_its_key};

}

broadcast proof fn mirror_stays(
    w: World,
    child: Seq<char>,
    held: Seq<char>,
    task: TaskModel,
    decision: DecisionModel,
    event_type: Seq<char>,
    now: Timestamp,
)
    requires
        at_most(w, child, held),
        filed_as(w, task),
    ensures
        #![trigger w.mirror_decision(task, decision, event_type, now), at_most(w, child, held)]
        at_most(w.mirror_decision(task, decision, event_type, now), child, held),
{
    broadcast use {persist_task_stays, emit_stays};

}

broadcast proof fn feedback_stays(
    w: World,
    child: Seq<char>,
    held: Seq<char>,
    task: TaskModel,
    status: Seq<char>,
    summary: Option<Seq<char>>,
    blocking: Option<Seq<char>>,
    topic: Option<Seq<char>>,
    details: Option<Seq<char>>,
    event_type: Seq<char>,
    now: Timestamp,
)
    requires
        at_most(w, child, held),
        filed_as(w, task),
    ensures
        #![trigger w.child_feedback(task, status, summary, blocking, topic, details, event_type, now), at_most(w, child, held)]
        at_most(
            w.child_feedback(task, status, summary, blocking, topic, details, event_type, now).0,
            child,
            held,
        ),
{
    broadcast use {persist_task_stays, emit_stays, sync_stays};

}

broadcast proof fn send_decision_stays(
    w: World,
    child: Seq<char>,
    held: Seq<char>,
    task_id: Seq<char>,
    issued_by: Seq<char>,
    target: Seq<char>,
    summary: Seq<char>,
    decision_id: Seq<char>,
    now: Timestamp,
)
    requires
        at_most(w, child, held),
    ensures
        #![trigger w.send_decision(task_id, issued_by, target, summary, decision_id, now), at_most(w, child, held)]
        at_most(
            w.send_decision(task_id, issued_by, target, summary, decision_id, now).0,
            child,
            held,
        ),
{
    broadcast use {
        transition_task_stays,
        transition_task_files,
        mirror_stays,
        emit_stays,
        found_has_its_key,
    };

    if let Some(assigned) = w.task(task_id) {
        let moved = w.transition_task(
            assigned.task_id,
            assigned.to_agent,
            TaskState::Analyzed,
            TaskState::DecisionSent,
            "decision_sent"@,
            now,
        );
        if let Ok(task) = moved.1 {
            let decision = DecisionModel {
                decision_id,
                task_id: task.task_id,
                issued_by,
                target_agent: target,
                summary,
                status: "sent"@,
                created_at: now,
                acknowledged_at: None,
            };
            let stored = moved.0.emit(EffectModel::InsertDecision { decision });
            let kept = World { decisions: put(stored.decisions, decision), ..stored };
            lemma_elsewhere(moved.0, kept, child, held);
            assert(filed_as(kept, task));
        }
    }
}

broadcast proof fn acknowledge_stays(
    w: World,
    child: Seq<char>,
    held: Seq<char>,
    task_id: Seq<char>,
    agent: Seq<char>,
    emit_stream: bool,
    now: Timestamp,
)
    requires
        at_most(w, child, held),
    ensures
        #![trigger w.acknowledge_decision(task_id, agent, emit_stream, now), at_most(w, child, held)]
        at_most(w.acknowledge_decision(task_id, agent, emit_stream, now).0, child, held),
{
    broadcast use {mirror_stays, emit_stays, record_stream_stays, found_has_its_key};

    if let Some(task) = w.task(task_id) {
        if let Some(d) = newest_decision(w.decisions, task_id, Some(agent), true) {
            let updated = DecisionModel {
                status: "acknowledged"@,
                acknowledged_at: Some(now),
                ..d
            };
            let stored = w.emit(EffectModel::AcknowledgeDecision { decision: updated });
            let kept = World { decisions: put(stored.decisions, updated), ..stored };
            lemma_elsewhere(w, kept, child, held);
            assert(filed_as(kept, task));
        }
    }
}

broadcast proof fn reopen_stays(
    w: World,
    child: Seq<char>,
    held: Seq<char>,
    task_id: Seq<char>,
    agent: Seq<char>,
    now: Timestamp,
)
    requires
        at_most(w, child, held),
    ensures
        #![trigger w.reopen_for_next_round(task_id, agent, now), at_most(w, child, held)]
        at_most(w.reopen_for_next_round(task_id, agent, now).0, child, held),
{
    broadcast use {
        acknowledge_stays,
        transition_task_stays,
        transition_task_files,
        claim_stays,
    };

}

broadcast proof fn close_stays(
    w: World,
    child: Seq<char>,
    held: Seq<char>,
    task_id: Seq<char>,
    agent: Seq<char>,
    now: Timestamp,
)
    requires
        at_most(w, child, held),
    ensures
        #![trigger w.close_after_decision(task_id, agent, now), at_most(w, child, held)]
        at_most(w.close_after_decision(task_id, agent, now).0, child, held),
{
    broadcast use {
        acknowledge_stays,
        transition_task_stays,
        transition_task_files,
        found_has_its_key,
    };

    let acked = w.acknowledge_decision(task_id, agent, true, now);
    if acked.1 is Ok {
        let moved = acked.0.transition_task(
            task_id,
            agent,
            TaskState::DecisionSent,
            TaskState::Closed,
            "task_closed"@,
            now,
        );
        if moved.1 is Ok {
            if agent == child {
                assert(open_to(acked.0, task_id, child));
                lemma_only(acked.0, child, held, task_id);
            }
            if let Some(a) = moved.0.agent(agent) {
                lemma_put_agent(
                    moved.0,
                    w.close_after_decision(task_id, agent, now).0,
                    AgentModel {
                        current_task_id: None,
                        state: AgentSessionState::Idle,
                        last_output_at: Some(now),
                        ..a
                    },
                    child,
                    held,
                );
            }
        }
    }
}

broadcast proof fn transition_any_stays(
    w: World,
    child: Seq<char>,
    held: Seq<char>,
    task_id: Seq<char>,
    expected: Seq<TaskState>,
    next: TaskState,
    event_type: Seq<char>,
    now: Timestamp,
)
    requires
        at_most(w, child, held),
        forall|i: int| 0 <= i < expected.len() ==> !terminal(#[trigger] expected[i]),
    ensures
        #![trigger w.transition_any_of(task_id, expected, next, event_type, now), at_most(w, child, held)]
        at_most(
            w.transition_any_of(task_id, expected, next, event_type, now).0,
            child,
            held,
        ),
{
    broadcast use {transition_stays, found_has_its_key};

}

broadcast proof fn analyze_stays(
    w: World,
    child: Seq<char>,
    held: Seq<char>,
    task_id: Seq<char>,
    analyzer: Seq<char>,
    now: Timestamp,
)
    requires
        at_most(w, child, held),
    ensures
        #![trigger w.analyze_task(task_id, analyzer, now), at_most(w, child, held)]
        at_most(w.analyze_task(task_id, analyzer, now).0, child, held),
{
    broadcast use {transition_any_stays, record_stream_stays};

}

broadcast proof fn resolve_stays(
    w: World,
    child: Seq<char>,
    held: Seq<char>,
    task_id: Seq<char>,
    analyzer: Seq<char>,
    summary: Seq<char>,
    decision_id: Seq<char>,
    now: Timestamp,
)
    requires
        at_most(w, child, held),
    ensures
        #![trigger w.resolve_task(task_id, analyzer, summary, decision_id, now), at_most(w, child, held)]
        at_most(w.resolve_task(task_id, analyzer, summary, decision_id, now).0, child, held),
{
    broadcast use {analyze_stays, send_decision_stays, reopen_stays};

}

broadcast proof fn decide_stays(
    w: World,
    child: Seq<char>,
    held: Seq<char>,
    task_id: Seq<char>,
    issued_by: Seq<char>,
    target: Seq<char>,
    summary: Seq<char>,
    auto_close: bool,
    decision_id: Seq<char>,
    now: Timestamp,
)
    requires
        at_most(w, child, held),
    ensures
        #![trigger w.decide_task(task_id, issued_by, target, summary, auto_close, decision_id, now), at_most(w, child, held)]
        at_most(
            w.decide_task(task_id, issued_by, target, summary, auto_close, decision_id, now).0,
            child,
            held,
        ),
{
    broadcast use {send_decision_stays, close_stays, reopen_stays};

}

broadcast proof fn accept_and_run_stays(
    w: World,
    child: Seq<char>,
    held: Seq<char>,
    task_id: Seq<char>,
    agent: Seq<char>,
    now: Timestamp,
)
    requires
        at_most(w, child, held),
    ensures
        #![trigger w.accept_and_run(task_id, agent, now), at_most(w, child, held)]
        at_most(w.accept_and_run(task_id, agent, now).0, child, held),
{
    broadcast use transition_task_stays;

}

broadcast proof fn end_round_stays(
    w: World,
    child: Seq<char>,
    held: Seq<char>,
    task: TaskModel,
    status: TaskRoundStatus,
    now: Timestamp,
)
    requires
        at_most(w, child, held),
    ensures
        #![trigger w.end_round(task, status, now), at_most(w, child, held)]
        at_most(w.end_round(task, status, now).0, child, held),
{
    broadcast use transition_task_stays;

}

proof fn lemma_end_round_files(w: World, task: TaskModel, status: TaskRoundStatus, now: Timestamp)
    ensures
        w.end_round(task, status, now).1 matches Ok(t) ==> filed_as(
            w.end_round(task, status, now).0,
            t,
        ),
{
    broadcast use transition_task_files;

}

broadcast proof fn finalize_round_stays(
    w: World,
    child: Seq<char>,
    held: Seq<char>,
    task: TaskModel,
    payload: PayloadModel,
    thread_id: Option<Seq<char>>,
    completed_at: Timestamp,
    raw: Seq<char>,
    history_event: Seq<char>,
    stream_label: Seq<char>,
    decision_id: Seq<char>,
    now: Timestamp,
)
    requires
        at_most(w, child, held),
    ensures
        #![trigger w.finalize_round(task, payload, thread_id, completed_at, raw, history_event, stream_label, decision_id, now), at_most(w, child, held)]
        at_most(
            w.finalize_round(
                task,
                payload,
                thread_id,
                completed_at,
                raw,
                history_event,
                stream_label,
                decision_id,
                now,
            ).0,
            child,
            held,
        ),
{
    broadcast use {
        end_round_stays,
        emit_stays,
        record_stream_stays,
        persist_agent_stays,
        feedback_stays,
        resolve_stays,
        found_has_its_key,
    };

    let ended = w.end_round(task, payload.status, now);
    lemma_end_round_files(w, task, payload.status, now);
    if let Ok(t) = ended.1 {
        let noted = ended.0.note_task(task.task_id, history_event, t.state, raw).say(
            task.to_agent,
            "["@ + stream_label + "] "@ + raw,
            now,
        );
        assert(noted.tasks == ended.0.tasks);
        assert(at_most(noted, child, held));
        let next = agent_state_for(t.state);
        let settled = match thread_id {
            Some(id) => noted.agent_after_round(task.to_agent, Some(id), next, completed_at, now),
            None => noted.set_agent_state(task.to_agent, next, now),
        };
        assert(settled.0.tasks == ended.0.tasks);
        assert(at_most(settled.0, child, held));
        assert(filed_as(settled.0, t));
    }
}

broadcast proof fn begin_visible_stays(
    w: World,
    child: Seq<char>,
    held: Seq<char>,
    agent: Seq<char>,
    now: Timestamp,
)
    requires
        at_most(w, child, held),
    ensures
        #![trigger w.begin_visible_task(agent, now), at_most(w, child, held)]
        at_most(w.begin_visible_task(agent, now).0, child, held),
{
    broadcast use {accept_and_run_stays, transition_task_stays};

}

broadcast proof fn submit_visible_stays(
    w: World,
    child: Seq<char>,
    held: Seq<char>,
    task_id: Seq<char>,
    agent: Seq<char>,
    payload: PayloadModel,
    rendered: Seq<char>,
    decision_id: Seq<char>,
    now: Timestamp,
)
    requires
        at_most(w, child, held),
    ensures
        #![trigger w.submit_visible_round(task_id, agent, payload, rendered, decision_id, now), at_most(w, child, held)]
        at_most(
            w.submit_visible_round(task_id, agent, payload, rendered, decision_id, now).0,
            child,
            held,
        ),
{
    broadcast use finalize_round_stays;

}

broadcast proof fn report_stays(
    w: World,
    child: Seq<char>,
    held: Seq<char>,
    task_id: Seq<char>,
    agent: Seq<char>,
    blocking: Seq<char>,
    topic: Seq<char>,
    details: Seq<char>,
    now: Timestamp,
)
    requires
        at_most(w, child, held),
    ensures
        #![trigger w.report_task(task_id, agent, blocking, topic, details, now), at_most(w, child, held)]
        at_most(
            w.report_task(task_id, agent, blocking, topic, details, now).0,
            child,
            held,
        ),
{
    broadcast use {
        transition_task_stays,
        transition_task_files,
        emit_stays,
        record_stream_stays,
        feedback_stays,
    };

    let moved = w.transition_task(
        task_id,
        agent,
        TaskState::Completed,
        TaskState::Reported,
        "report_submitted"@,
        now,
    );
    if let Ok(t) = moved.1 {
        assert(filed_as(moved.0, t));
    }
}

broadcast proof fn cancel_stays(
    w: World,
    child: Seq<char>,
    held: Seq<char>,
    task_id: Seq<char>,
    requested_by: Seq<char>,
    now: Timestamp,
)
    requires
        at_most(w, child, held),
    ensures
        #![trigger w.cancel_task(task_id, requested_by, now), at_most(w, child, held)]
        at_most(w.cancel_task(task_id, requested_by, now).0, child, held),
{
    broadcast use {
        transition_any_stays,
        emit_stays,
        record_stream_stays,
        found_after_put,
        found_has_its_key,
    };

    if let Some(task) = w.task(task_id) {
        transition_moves_the_task(
            w,
            task,
            TaskState::Cancelled,
            "task_cancelled"@,
            None,
            now,
        );
        let moved = w.transition_any_of(
            task_id,
            cancellable(),
            TaskState::Cancelled,
            "task_cancelled"@,
            now,
        );
        if moved.1 is Ok {
            if task.to_agent == child {
                assert(open_to(w, task_id, child));
                lemma_only(w, child, held, task_id);
            }
            lemma_release(moved.0, child, held, task.to_agent, AgentSessionState::Idle, now);
        }
    }
}

broadcast proof fn fail_task_round_stays(
    w: World,
    child: Seq<char>,
    held: Seq<char>,
    start: RoundStartModel,
    message: Seq<char>,
    now: Timestamp,
)
    requires
        at_most(w, child, held),
    ensures
        #![trigger w.fail_task_round(start, message, now), at_most(w, child, held)]
        at_most(w.fail_task_round(start, message, now).0, child, held),
{
    broadcast use {transition_task_stays, transition_task_files};

    let task_id = start.task.task_id;
    let agent = start.task.to_agent;
    let moved = w.transition_task(
        task_id,
        agent,
        TaskState::Running,
        TaskState::Failed,
        "task_failed"@,
        now,
    );
    if moved.1 is Ok {
        if agent == child {
            assert(open_to(w, task_id, child));
            lemma_only(w, child, held, task_id);
        }
        lemma_release(moved.0, child, held, agent, AgentSessionState::Blocked, now);
    }
}

proof fn lemma_create(
    w: World,
    child: Seq<char>,
    held: Seq<char>,
    from: Seq<char>,
    to: Seq<char>,
    draft: DraftModel,
    by: Option<Seq<char>>,
    summary: Option<Seq<char>>,
    reason: Seq<char>,
    task_id: Seq<char>,
    now: Timestamp,
)
    requires
        bound(w, child, held),
        w.task(task_id) is None,
    ensures
        at_most(
            w.create_task(from, to, draft, by, summary, reason, task_id, now).0,
            child,
            held,
        ),
        to == child ==> w.create_task(from, to, draft, by, summary, reason, task_id, now).0 == w
            && w.create_task(from, to, draft, by, summary, reason, task_id, now).1 is Err,
{
    broadcast use {emit_stays, sync_stays, found_after_put, found_has_its_key};

    lemma_bound(w, child, held);
    if let Some(target) = w.agent(to) {
        if let Ok(d) = normal_draft(target.cwd, draft) {
            let task = new_task(from, to, d, by, summary, task_id, now);
            let stored = w.emit(EffectModel::InsertTask { task }).emit(
                EffectModel::InsertTaskEvent {
                    task_id: task.task_id,
                    event_type: "task_created"@,
                    from_state: None,
                    to_state: Some(TaskState::Pending),
                    payload: "{}"@,
                },
            );
            let kept = World { tasks: put(stored.tasks, task), ..stored };
            if to != child {
                assert(at_most(kept, child, held)) by {
                    reveal(at_most);
                    assert forall|k: Seq<char>| #[trigger] open_to(kept, k, child) implies k
                        == held by {
                        assert(open_to(w, k, child));
                    }
                }
                lemma_put_agent(
                    kept,
                    kept.claim_task(to, task_id, now),
                    claimed(target, task_id, now),
                    child,
                    held,
                );
            }
        }
    }
}

proof fn lemma_retry(
    w: World,
    child: Seq<char>,
    held: Seq<char>,
    task_id: Seq<char>,
    requested_by: Seq<char>,
    now: Timestamp,
)
    requires
        bound(w, child, held),
    ensures
        at_most(w.retry_task(task_id, requested_by, now).0, child, held),
{
    broadcast use {emit_stays, record_stream_stays, found_after_put, found_has_its_key};

    lemma_bound(w, child, held);
    if let Some(task) = w.task(task_id) {
        if task.to_agent != child {
            if let Some(agent) = w.agent(task.to_agent) {
                let retried = TaskModel {
                    state: TaskState::Pending,
                    updated_at: now,
                    closed_at: None,
                    ..task
                };
                let moved = w.move_task(retried, "task_retried"@, task.state);
                assert(at_most(moved, child, held)) by {
                    reveal(at_most);
                    assert forall|k: Seq<char>| #[trigger] open_to(moved, k, child) implies k
                        == held by {
                        assert(open_to(w, k, child));
                    }
                }
                lemma_put_agent(
                    moved,
                    moved.claim_task(task.to_agent, task.task_id, now),
                    claimed(agent, task.task_id, now),
                    child,
                    held,
                );
            }
        }
    }
}

broadcast proof fn touch_stays(
    w: World,
    child: Seq<char>,
    held: Seq<char>,
    agent: Seq<char>,
    now: Timestamp,
)
    requires
        at_most(w, child, held),
    ensures
        #![trigger w.touch_agent(agent, now), at_most(w, child, held)]
        at_most(w.touch_agent(agent, now).0, child, held),
{
    broadcast use {persist_agent_stays, found_has_its_key};

}

broadcast proof fn begin_bootstrap_stays(
    w: World,
    child: Seq<char>,
    held: Seq<char>,
    agent: Seq<char>,
    now: Timestamp,
)
    requires
        at_most(w, child, held),
    ensures
        #![trigger w.begin_bootstrap(agent, now), at_most(w, child, held)]
        at_most(w.begin_bootstrap(agent, now).0, child, held),
{
    broadcast use {persist_agent_stays, record_stream_stays, emit_stays, found_has_its_key};

}

broadcast proof fn mark_ready_stays(
    w: World,
    child: Seq<char>,
    held: Seq<char>,
    agent: Seq<char>,
    summary: Option<Seq<char>>,
    thread_id: Option<Seq<char>>,
    now: Timestamp,
)
    requires
        at_most(w, child, held),
    ensures
        #![trigger w.mark_ready(agent, summary, thread_id, now), at_most(w, child, held)]
        at_most(w.mark_ready(agent, summary, thread_id, now).0, child, held),
{
    broadcast use {persist_agent_stays, record_stream_stays, emit_stays, found_has_its_key};

}

broadcast proof fn set_pane_stays(
    w: World,
    child: Seq<char>,
    held: Seq<char>,
    agent: Seq<char>,
    pid: Option<u32>,
    kind: Option<VisiblePaneKind>,
    now: Timestamp,
)
    requires
        at_most(w, child, held),
    ensures
        #![trigger w.set_visible_pane(agent, pid, kind, now), at_most(w, child, held)]
        at_most(w.set_visible_pane(agent, pid, kind, now).0, child, held),
{
    broadcast use {persist_agent_stays, emit_stays, found_has_its_key};

}

broadcast proof fn set_server_stays(
    w: World,
    child: Seq<char>,
    held: Seq<char>,
    agent: Seq<char>,
    url: Option<Seq<char>>,
    owner: Option<AppServerOwner>,
    now: Timestamp,
)
    requires
        at_most(w, child, held),
    ensures
        #![trigger w.set_app_server(agent, url, owner, now), at_most(w, child, held)]
        at_most(w.set_app_server(agent, url, owner, now).0, child, held),
{
    broadcast use {persist_agent_stays, emit_stays, found_has_its_key};

}

broadcast proof fn reset_server_stays(
    w: World,
    child: Seq<char>,
    held: Seq<char>,
    agent: Seq<char>,
    reason: Seq<char>,
    now: Timestamp,
)
    requires
        at_most(w, child, held),
    ensures
        #![trigger w.reset_app_server(agent, reason, now), at_most(w, child, held)]
        at_most(w.reset_app_server(agent, reason, now).0, child, held),
{
    broadcast use {persist_agent_stays, emit_stays, found_has_its_key};

}

broadcast proof fn recover_stays(
    w: World,
    child: Seq<char>,
    held: Seq<char>,
    agent: Seq<char>,
    now: Timestamp,
)
    requires
        at_most(w, child, held),
    ensures
        #![trigger w.recover_agent(agent, now), at_most(w, child, held)]
        at_most(w.recover_agent(agent, now).0, child, held),
{
    broadcast use {persist_agent_stays, record_stream_stays, emit_stays, found_has_its_key};

}

broadcast proof fn reset_thread_stays(
    w: World,
    child: Seq<char>,
    held: Seq<char>,
    agent: Seq<char>,
    now: Timestamp,
)
    requires
        at_most(w, child, held),
    ensures
        #![trigger w.reset_thread(agent, now), at_most(w, child, held)]
        at_most(w.reset_thread(agent, now).0, child, held),
{
    broadcast use {persist_agent_stays, record_stream_stays, emit_stays, found_has_its_key};

}

broadcast proof fn start_ad_hoc_stays(
    w: World,
    child: Seq<char>,
    held: Seq<char>,
    agent: Seq<char>,
    now: Timestamp,
)
    requires
        at_most(w, child, held),
    ensures
        #![trigger w.start_ad_hoc_round(agent, now), at_most(w, child, held)]
        at_most(w.start_ad_hoc_round(agent, now).0, child, held),
{
    broadcast use {persist_agent_stays, found_has_its_key};

}

broadcast proof fn begin_task_round_stays(
    w: World,
    child: Seq<char>,
    held: Seq<char>,
    task_id: Seq<char>,
    now: Timestamp,
)
    requires
        at_most(w, child, held),
    ensures
        #![trigger w.begin_task_round(task_id, now), at_most(w, child, held)]
        at_most(w.begin_task_round(task_id, now).0, child, held),
{
    broadcast use {accept_and_run_stays, found_has_its_key};

}

broadcast proof fn begin_managed_stays(
    w: World,
    child: Seq<char>,
    held: Seq<char>,
    agent: Seq<char>,
    now: Timestamp,
)
    requires
        at_most(w, child, held),
    ensures
        #![trigger w.begin_managed(agent, now), at_most(w, child, held)]
        at_most(w.begin_managed(agent, now).0, child, held),
{
    broadcast use begin_bootstrap_stays;

}

broadcast proof fn upsert_session_stays(
    w: World,
    child: Seq<char>,
    held: Seq<char>,
    session: SessionModel,
    event_type: Seq<char>,
)
    requires
        at_most(w, child, held),
    ensures
        #![trigger w.upsert_session(session, event_type), at_most(w, child, held)]
        at_most(w.upsert_session(session, event_type), child, held),
{
    lemma_elsewhere(w, w.upsert_session(session, event_type), child, held);
}

broadcast proof fn finalize_session_stays(
    w: World,
    child: Seq<char>,
    held: Seq<char>,
    session_id: Seq<char>,
    status: CodexSessionStatus,
    ended_at: Timestamp,
    clear: bool,
    now: Timestamp,
)
    requires
        at_most(w, child, held),
    ensures
        #![trigger w.finalize_session(session_id, status, ended_at, clear, now), at_most(w, child, held)]
        at_most(w.finalize_session(session_id, status, ended_at, clear, now).0, child, held),
{
    broadcast use {upsert_session_stays, persist_agent_stays, found_has_its_key};

}

broadcast proof fn start_round_stays(
    w: World,
    child: Seq<char>,
    held: Seq<char>,
    session: SessionModel,
    now: Timestamp,
)
    requires
        at_most(w, child, held),
    ensures
        #![trigger w.start_round_session(session, now), at_most(w, child, held)]
        at_most(w.start_round_session(session, now).0, child, held),
{
    broadcast use {upsert_session_stays, persist_agent_stays, found_has_its_key};

    let attached = w.upsert_session(session, "session_started"@).set_current_session(
        session.agent_name,
        Some(session.session_id),
        now,
    );
    assert(at_most(attached.0, child, held));
    lemma_elsewhere(attached.0, w.start_round_session(session, now).0, child, held);
}

broadcast proof fn session_event_stays(
    w: World,
    child: Seq<char>,
    held: Seq<char>,
    session_id: Seq<char>,
    agent: Seq<char>,
    event: BackendEvent,
    now: Timestamp,
)
    requires
        at_most(w, child, held),
    ensures
        #![trigger w.session_event(session_id, agent, event, now), at_most(w, child, held)]
        at_most(w.session_event(session_id, agent, event, now), child, held),
{
    broadcast use {record_stream_stays, upsert_session_stays};

}

broadcast proof fn finish_round_stays(
    w: World,
    child: Seq<char>,
    held: Seq<char>,
    session_id: Seq<char>,
    agent: Seq<char>,
    finished: BackendFinished,
    now: Timestamp,
)
    requires
        at_most(w, child, held),
    ensures
        #![trigger w.finish_round_session(session_id, agent, finished, now), at_most(w, child, held)]
        at_most(w.finish_round_session(session_id, agent, finished, now).0, child, held),
{
    broadcast use finalize_session_stays;

    let left = World { active_sessions: without(w.active_sessions, session_id), ..w };
    lemma_elsewhere(w, left, child, held);
}

broadcast proof fn finish_ad_hoc_stays(
    w: World,
    child: Seq<char>,
    held: Seq<char>,
    agent: Seq<char>,
    round: RoundModel,
    kept_thread: Option<Seq<char>>,
    missing: Seq<char>,
    now: Timestamp,
)
    requires
        at_most(w, child, held),
    ensures
        #![trigger w.finish_ad_hoc_round(agent, round, kept_thread, missing, now), at_most(w, child, held)]
        at_most(w.finish_ad_hoc_round(agent, round, kept_thread, missing, now).0, child, held),
{
    broadcast use {persist_agent_stays, record_stream_stays, found_has_its_key};

}

broadcast proof fn fail_ad_hoc_stays(
    w: World,
    child: Seq<char>,
    held: Seq<char>,
    agent: Seq<char>,
    message: Seq<char>,
    now: Timestamp,
)
    requires
        at_most(w, child, held),
    ensures
        #![trigger w.fail_ad_hoc_round(agent, message, now), at_most(w, child, held)]
        at_most(w.fail_ad_hoc_round(agent, message, now).0, child, held),
{
    broadcast use {persist_agent_stays, found_has_its_key};

}

broadcast proof fn finish_task_round_stays(
    w: World,
    child: Seq<char>,
    held: Seq<char>,
    start: RoundStartModel,
    round: RoundModel,
    payload: Option<PayloadModel>,
    decision_id: Seq<char>,
    now: Timestamp,
)
    requires
        at_most(w, child, held),
    ensures
        #![trigger w.finish_task_round(start, round, payload, decision_id, now), at_most(w, child, held)]
        at_most(w.finish_task_round(start, round, payload, decision_id, now).0, child, held),
{
    broadcast use finalize_round_stays;

}

broadcast proof fn acknowledge_deliveries_stays(
    w: World,
    child: Seq<char>,
    held: Seq<char>,
    agent: Seq<char>,
    session_id: Option<Seq<char>>,
    delivery_id: u64,
    now: Timestamp,
)
    requires
        at_most(w, child, held),
    ensures
        #![trigger w.acknowledge_deliveries(agent, session_id, delivery_id, now), at_most(w, child, held)]
        at_most(w.acknowledge_deliveries(agent, session_id, delivery_id, now).0, child, held),
{
    broadcast use {persist_agent_stays, emit_stays, found_has_its_key};

    let q = queue_or_new(w.bridge_queues, agent);
    let upto = if delivery_id < q.next_delivery_id {
        delivery_id
    } else {
        q.next_delivery_id
    };
    let drained = World {
        bridge_queues: put(
            w.bridge_queues,
            QueueModel { pending: after_ack(q.pending, upto), ..q },
        ),
        ..w
    };
    lemma_elsewhere(w, drained, child, held);
}

broadcast proof fn touch_bridge_stays(
    w: World,
    child: Seq<char>,
    held: Seq<char>,
    agent: Seq<char>,
    session_id: Seq<char>,
    now: Timestamp,
)
    requires
        at_most(w, child, held),
    ensures
        #![trigger w.touch_bridge_session(agent, session_id, now), at_most(w, child, held)]
        at_most(w.touch_bridge_session(agent, session_id, now).0, child, held),
{
    broadcast use {persist_agent_stays, found_has_its_key};

}

broadcast proof fn presence_stays(
    w: World,
    child: Seq<char>,
    held: Seq<char>,
    agent: Seq<char>,
    state: BridgeConnectionState,
    mode: Option<BridgeMode>,
    session_id: Option<Seq<char>>,
    now: Timestamp,
)
    requires
        at_most(w, child, held),
    ensures
        #![trigger w.update_bridge_presence(agent, state, mode, session_id, now), at_most(w, child, held)]
        at_most(w.update_bridge_presence(agent, state, mode, session_id, now).0, child, held),
{
    broadcast use {persist_agent_stays, emit_stays, found_has_its_key};

}

broadcast proof fn register_bridge_stays(
    w: World,
    child: Seq<char>,
    held: Seq<char>,
    agent: Seq<char>,
    mode: BridgeMode,
    last_ack: Option<u64>,
    session_id: Seq<char>,
    now: Timestamp,
)
    requires
        at_most(w, child, held),
    ensures
        #![trigger w.register_bridge(agent, mode, last_ack, session_id, now), at_most(w, child, held)]
        at_most(w.register_bridge(agent, mode, last_ack, session_id, now).0, child, held),
{
    broadcast use {acknowledge_deliveries_stays, presence_stays};

    if let Some(a) = w.agent(agent) {
        let ready = w.ensure_bridge_queue(a);
        lemma_elsewhere(w, ready, child, held);
        let acked = match last_ack {
            Some(id) => ready.acknowledge_deliveries(agent, None, id, now),
            None => (ready, Ok(a)),
        };
        let linked = World {
            active_bridges: put(
                acked.0.active_bridges,
                LinkModel { agent_name: agent, session_id },
            ),
            ..acked.0
        };
        lemma_elsewhere(acked.0, linked, child, held);
    }
}

broadcast proof fn disconnect_stays(
    w: World,
    child: Seq<char>,
    held: Seq<char>,
    agent: Seq<char>,
    session_id: Seq<char>,
    now: Timestamp,
)
    requires
        at_most(w, child, held),
    ensures
        #![trigger w.disconnect_bridge(agent, session_id, now), at_most(w, child, held)]
        at_most(w.disconnect_bridge(agent, session_id, now), child, held),
{
    broadcast use presence_stays;

    let left = World { active_bridges: without(w.active_bridges, agent), ..w };
    lemma_elsewhere(w, left, child, held);
}

broadcast proof fn recover_session_stays(
    w: World,
    child: Seq<char>,
    held: Seq<char>,
    session: SessionModel,
    now: Timestamp,
)
    requires
        at_most(w, child, held),
    ensures
        #![trigger w.recover_session(session, now), at_most(w, child, held)]
        at_most(w.recover_session(session, now).0, child, held),
{
    broadcast use {
        finalize_session_stays,
        reset_server_stays,
        persist_agent_stays,
        found_has_its_key,
    };

}

proof fn lemma_register(w: World, child: Seq<char>, held: Seq<char>, agent: AgentModel)
    requires
        at_most(w, child, held),
        agent.name != child,
    ensures
        at_most(w.register_agent(agent), child, held),
{
    lemma_put_agent(w, w.register_agent(agent), agent, child, held);
}

proof fn lemma_same_place<R: Keyed>(s: Seq<R>, t: Seq<R>, k: Seq<char>)
    requires
        t.len() == s.len(),
        forall|i: int| 0 <= i < s.len() ==> (#[trigger] t[i]).key() == s[i].key(),
    ensures
        place(t, k) == place(s, k),
{
    lemma_place(s, k);
    let p = place(s, k);
    assert forall|i: int| 0 <= i < p implies (#[trigger] t[i]).key() != k by {
        assert(s[i].key() != k);
    }
    lemma_place_is(t, k, p);
}

/// Tables whose tasks are as far as before, and in which the agent points to the same
/// task while it is open.
proof fn lemma_same_course(w: World, v: World, child: Seq<char>, held: Seq<char>)
    requires
        at_most(w, child, held),
        forall|k: Seq<char>| #[trigger]
            v.task(k) is Some == w.task(k) is Some && (w.task(k) is Some ==> v.task(
                k,
            )->Some_0.to_agent == w.task(k)->Some_0.to_agent && v.task(k)->Some_0.state == w.task(
                k,
            )->Some_0.state),
        (open_to(w, held, child) && w.agent(child) is Some) ==> (v.agent(child) matches Some(a)
            && a.current_task_id == w.agent(child)->Some_0.current_task_id),
    ensures
        at_most(v, child, held),
{
    reveal(at_most);
    assert forall|k: Seq<char>| #[trigger] open_to(v, k, child) implies k == held by {
        assert(open_to(w, k, child));
    }
    if open_to(v, held, child) {
        assert(open_to(w, held, child));
    }
    assert(v.task(held) is Some == w.task(held) is Some);
}

proof fn lemma_repair(
    w: World,
    child: Seq<char>,
    held: Seq<char>,
    requested_by: Seq<char>,
    now: Timestamp,
)
    requires
        at_most(w, child, held),
    ensures
        at_most(w.repair(requested_by, now).0, child, held),
{
    broadcast use {record_stream_stays, emit_stays};

    let v = w.repaired_tables(now);
    let t = repair_tasks(w.tasks, w.decisions, now).records;
    let s = repair_sessions(w.sessions, w.handles(), now).records;
    lemma_repair_tasks(w.tasks, w.decisions, now);
    lemma_repair_agents(w.agents, t, s, now);
    assert forall|k: Seq<char>| #[trigger]
        v.task(k) is Some == w.task(k) is Some && (w.task(k) is Some ==> v.task(k)->Some_0.to_agent
            == w.task(k)->Some_0.to_agent && v.task(k)->Some_0.state == w.task(
            k,
        )->Some_0.state) by {
        lemma_same_place(w.tasks, v.tasks, k);
        lemma_place(w.tasks, k);
    }
    lemma_same_place(w.agents, v.agents, child);
    lemma_place(w.agents, child);
    if open_to(w, held, child) {
        lemma_only(w, child, held, held);
        assert(v.task(held) is Some);
        assert(is_open(t, held));
    }
    lemma_same_course(w, v, child, held);
}

proof fn lemma_mirrors(w: World, child: Seq<char>, held: Seq<char>)
    requires
        at_most(w, child, held),
    ensures
        at_most(w.sync_task_decisions(), child, held),
{
    let v = w.sync_task_decisions();
    assert forall|k: Seq<char>| #[trigger]
        v.task(k) is Some == w.task(k) is Some && (w.task(k) is Some ==> v.task(k)->Some_0.to_agent
            == w.task(k)->Some_0.to_agent && v.task(k)->Some_0.state == w.task(
            k,
        )->Some_0.state) by {
        lemma_same_place(w.tasks, v.tasks, k);
        lemma_place(w.tasks, k);
    }
    lemma_same_course(w, v, child, held);
}

proof fn lemma_normalize(w: World, child: Seq<char>, held: Seq<char>, now: Timestamp)
    requires
        at_most(w, child, held),
    ensures
        at_most(w.normalize_agents(now), child, held),
{
    let v = w.normalize_agents(now);
    assert(v.agents == normal_agents(w, w.agents, now));
    lemma_same_place(w.agents, v.agents, child);
    lemma_place(w.agents, child);
    if open_to(w, held, child) {
        lemma_only(w, child, held, held);
        assert(is_open(w.tasks, held));
    }
    lemma_same_course(w, v, child, held);
}

proof fn lemma_main(
    w: World,
    child: Seq<char>,
    held: Seq<char>,
    main_cwd: Seq<char>,
    prompt: Option<Seq<char>>,
    now: Timestamp,
)
    requires
        at_most(w, child, held),
    ensures
        at_most(w.ensure_main_agent(main_cwd, prompt, now), child, held),
{
    broadcast use {found_after_put, found_has_its_key};

    if open_to(w, held, child) {
        lemma_only(w, child, held, held);
    }
    lemma_same_course(w, w.ensure_main_agent(main_cwd, prompt, now), child, held);
}

proof fn lemma_prompt(
    w: World,
    child: Seq<char>,
    held: Seq<char>,
    name: Seq<char>,
    main_cwd: Seq<char>,
    prompt: Option<Seq<char>>,
)
    requires
        at_most(w, child, held),
    ensures
        at_most(w.sync_prompt(name, main_cwd, prompt), child, held),
{
    broadcast use {found_after_put, found_has_its_key};

    lemma_same_course(w, w.sync_prompt(name, main_cwd, prompt), child, held);
}

proof fn lemma_recover_all(
    w: World,
    child: Seq<char>,
    held: Seq<char>,
    stale: Seq<SessionModel>,
    now: Timestamp,
)
    requires
        at_most(w, child, held),
    ensures
        at_most(w.recover_all(stale, now).0, child, held),
    decreases stale.len(),
{
    broadcast use recover_session_stays;

    if stale.len() > 0 {
        let first = w.recover_session(stale[0], now);
        assert(at_most(first.0, child, held));
        lemma_recover_all(first.0, child, held, stale.skip(1), now);
    }
}

proof fn lemma_kept_found<R: Keyed + Removable>(
    s: Seq<R>,
    agents: Seq<Seq<char>>,
    task_ids: Seq<Seq<char>>,
    k: Seq<char>,
)
    requires
        distinct(s),
    ensures
        found(kept(s, agents, task_ids), k) matches Some(r) ==> found(s, k) == Some(r),
        found(s, k) matches Some(r) ==> r.stays(agents, task_ids) ==> found(
            kept(s, agents, task_ids),
            k,
        ) == Some(r),
{
    let t = kept(s, agents, task_ids);
    lemma_kept_distinct(s, agents, task_ids);
    lemma_place(t, k);
    lemma_place(s, k);
    if let Some(r) = found(t, k) {
        assert(s.contains(t[place(t, k)]));
        let i = s.index_of(r);
        lemma_found_at(s, i);
    }
    if let Some(r) = found(s, k) {
        if r.stays(agents, task_ids) {
            assert(s.contains(s[place(s, k)]));
            kept_are_those_that_stay(s, agents, task_ids, r);
            let i = t.index_of(r);
            lemma_found_at(t, i);
        }
    }
}

proof fn lemma_purged(w: World, child: Seq<char>, held: Seq<char>, plan: PlanModel)
    requires
        w.tidy(),
        at_most(w, child, held),
        !plan.agents.contains(child),
    ensures
        at_most(w.purge(plan), child, held),
{
    broadcast use found_has_its_key;

    let v = w.purge(plan);
    reveal(at_most);
    assert forall|k: Seq<char>| #[trigger] open_to(v, k, child) implies k == held by {
        lemma_kept_found(w.tasks, plan.agents, plan.task_ids, k);
        assert(open_to(w, k, child));
    }
    lemma_kept_found(w.tasks, plan.agents, plan.task_ids, held);
    lemma_kept_found(w.agents, plan.agents, plan.task_ids, child);
    if open_to(v, held, child) {
        assert(open_to(w, held, child));
    }
}

/// Whether the happening neither removes the agent nor registers it again, and gives a
/// new task an identifier that no task has.
pub open spec fn spares(w: World, h: Happening, agent: Seq<char>) -> bool {
    match h {
        Happening::Request { request, fresh, .. } => match request {
            ControlRequest::RegisterAgent { name, .. } => name@ != agent,
            ControlRequest::CreateTask { .. } => w.task(tagged("T-"@, fresh)) is None,
            _ => true,
        },
        Happening::TaskDrafted { task_id, .. } => w.task(task_id) is None,
        Happening::AgentRemoved { plan, .. } => !plan.agents.contains(agent),
        Happening::DemoRemoved { plan, .. } => !plan.agents.contains(agent),
        _ => true,
    }
}

proof fn lemma_request(
    w: World,
    child: Seq<char>,
    held: Seq<char>,
    request: ControlRequest,
    facts: RequestFacts,
    fresh: Seq<char>,
    now: Timestamp,
)
    requires
        bound(w, child, held),
        spares(w, Happening::Request { request, facts, fresh }, child),
    ensures
        at_most(w.dispatch(request, facts, fresh, now).0, child, held),
{
    lemma_bound(w, child, held);
    match matter(request) {
        Matter::Agent => {
            broadcast use {
                touch_stays,
                begin_bootstrap_stays,
                mark_ready_stays,
                set_pane_stays,
                set_server_stays,
                reset_thread_stays,
                recover_stays,
            };

            if let ControlRequest::RegisterAgent { name, role, repo_name, cwd, prompt_path } =
                request {
                if let Ok(r) = role_named(role@) {
                    lemma_register(
                        w,
                        child,
                        held,
                        fresh_agent(
                            name@,
                            r,
                            opt_text(repo_name),
                            cwd@,
                            resolved_prompt(
                                opt_text(prompt_path),
                                facts.prompt.absolute,
                                facts.prompt.below_cwd@,
                                opt_text(facts.prompt.default_file),
                            ),
                            now,
                        ),
                    );
                }
            }
        },
        Matter::Task => lemma_task_request(w, child, held, request, facts, fresh, now),
        Matter::Decision => {
            broadcast use {
                submit_visible_stays,
                resolve_stays,
                decide_stays,
                acknowledge_stays,
                close_stays,
            };

        },
        Matter::Round => {
            broadcast use {start_ad_hoc_stays, begin_task_round_stays};

        },
        Matter::Upkeep => {
            broadcast use begin_managed_stays;

            match request {
                ControlRequest::RepairRuntimeState { requested_by } => {
                    lemma_repair(w, child, held, requested_by@, now);
                },
                ControlRequest::StopAgentSession { agent } => {
                    lemma_elsewhere(w, w.take_session_to_stop(agent@).0, child, held);
                },
                ControlRequest::StopManagedSessions => {
                    lemma_elsewhere(w, w.take_managed_sessions().0, child, held);
                },
                _ => {},
            }
        },
        Matter::Look => {
            broadcast use emit_stays;

        },
    }
}

proof fn lemma_task_request(
    w: World,
    child: Seq<char>,
    held: Seq<char>,
    request: ControlRequest,
    facts: RequestFacts,
    fresh: Seq<char>,
    now: Timestamp,
)
    requires
        matter(request) is Task,
        bound(w, child, held),
        at_most(w, child, held),
        spares(w, Happening::Request { request, facts, fresh }, child),
    ensures
        at_most(w.dispatch(request, facts, fresh, now).0, child, held),
{
    broadcast use {
        begin_visible_stays,
        transition_task_stays,
        cancel_stays,
        report_stays,
        analyze_stays,
    };

    match request {
        ControlRequest::CreateTask {
            from_agent,
            to_agent,
            title,
            summary,
            effort,
            read_scope,
            write_scope,
            acceptance,
            auto_resolve_by,
            auto_resolve_summary,
        } => {
            lemma_create(
                w,
                child,
                held,
                from_agent@,
                to_agent@,
                DraftModel {
                    title: title@,
                    summary: summary@,
                    effort: opt_text(effort),
                    read_scope: texts(read_scope@),
                    write_scope: texts(write_scope@),
                    acceptance: texts(acceptance@),
                },
                opt_text(auto_resolve_by),
                opt_text(auto_resolve_summary),
                "control_request"@,
                tagged("T-"@, fresh),
                now,
            );
        },
        ControlRequest::RetryTask { task_id, requested_by } => {
            lemma_retry(w, child, held, task_id@, requested_by@, now);
        },
        _ => {},
    }
}

proof fn lemma_bridge(
    w: World,
    child: Seq<char>,
    held: Seq<char>,
    c: ConnectionModel,
    message: BridgeClientMessage,
    fresh: Seq<char>,
    now: Timestamp,
)
    requires
        at_most(w, child, held),
    ensures
        at_most(w.bridge_message(c, message, fresh, now).0, child, held),
        at_most(w.close_connection(c, now), child, held),
{
    broadcast use {
        register_bridge_stays,
        disconnect_stays,
        touch_bridge_stays,
        acknowledge_deliveries_stays,
    };

    assert(at_most(w.close_connection(c, now), child, held));
}

proof fn lemma_managed(w: World, child: Seq<char>, held: Seq<char>, h: Happening, now: Timestamp)
    requires
        at_most(w, child, held),
        h is ServerStarted || h is ServerListens || h is ServerReported || h is ServerFailed
            || h is ServerReset || h is ServerEnded,
    ensures
        at_most(w.after(h, now), child, held),
{
    broadcast use {
        upsert_session_stays,
        set_server_stays,
        reset_server_stays,
        mark_ready_stays,
        finalize_session_stays,
        emit_stays,
    };

    match h {
        Happening::ServerStarted { session } => {
            let saved = w.upsert_session(session, "session_started"@);
            lemma_elsewhere(saved, w.managed_started(session), child, held);
        },
        Happening::ServerFailed { agent, .. } | Happening::ServerEnded { agent, .. } => {
            let left = World {
                active_managed_sessions: without(w.active_managed_sessions, agent),
                ..w
            };
            lemma_elsewhere(w, left, child, held);
        },
        _ => {},
    }
}

proof fn lemma_round(w: World, child: Seq<char>, held: Seq<char>, h: Happening, now: Timestamp)
    requires
        at_most(w, child, held),
        h is AdHocBegun || h is RoundStarted || h is RoundSpoke || h is RoundEnded
            || h is AdHocFinished || h is AdHocFailed || h is TaskRoundFinished
            || h is TaskRoundFailed || h is StopAsked || h is PaneStopped || h is PaneMissed,
    ensures
        at_most(w.after(h, now), child, held),
{
    broadcast use {
        start_ad_hoc_stays,
        start_round_stays,
        session_event_stays,
        finish_round_stays,
        finish_ad_hoc_stays,
        fail_ad_hoc_stays,
        finish_task_round_stays,
        fail_task_round_stays,
        record_stream_stays,
        set_pane_stays,
        emit_stays,
    };

}

/// An agent that works on a task goes on working on it and takes no other, whatever
/// happens, until the task is over or gone or the agent is removed or registered again.
pub proof fn agent_stays_on_its_task(
    w: World,
    h: Happening,
    now: Timestamp,
    agent: Seq<char>,
    task_id: Seq<char>,
)
    requires
        w.tidy(),
        bound(w, agent, task_id),
        spares(w, h, agent),
    ensures
        bound_while_open(w.after(h, now), agent, task_id),
{
    broadcast use at_most_is_bound;

    lemma_bound(w, agent, task_id);
    assert(at_most(w.after(h, now), agent, task_id)) by {
        match h {
            Happening::Request { request, facts, fresh } => {
                lemma_request(w, agent, task_id, request, facts, fresh, now);
            },
            Happening::TaskDrafted { from, to, draft, reason, task_id: id } => {
                lemma_create(w, agent, task_id, from, to, draft, None, None, reason, id, now);
            },
            Happening::BridgeSpoke { connection, message, fresh } => {
                lemma_bridge(w, agent, task_id, connection, message, fresh, now);
            },
            Happening::BridgeLeft { connection } => {
                lemma_bridge(
                    w,
                    agent,
                    task_id,
                    connection,
                    BridgeClientMessage::Ping,
                    ""@,
                    now,
                );
            },
            Happening::AgentRemoved { plan, .. } => {
                lemma_purged(w, agent, task_id, plan);
                if w.after(h, now) != w {
                    lemma_elsewhere(w.purge(plan), w.after(h, now), agent, task_id);
                }
            },
            Happening::DemoRemoved { plan, .. } => {
                broadcast use {record_stream_stays, emit_stays};

                lemma_purged(w, agent, task_id, plan);
            },
            Happening::EventStored { .. } | Happening::EffectsTaken => {
                lemma_elsewhere(w, w.after(h, now), agent, task_id);
            },
            Happening::MainFound { main_cwd, prompt } => {
                lemma_main(w, agent, task_id, main_cwd, prompt, now);
            },
            Happening::PromptFound { agent: name, main_cwd, prompt } => {
                lemma_prompt(w, agent, task_id, name, main_cwd, prompt);
            },
            Happening::MirrorsRenewed => {
                lemma_mirrors(w, agent, task_id);
            },
            Happening::SessionsRecovered => {
                lemma_recover_all(w, agent, task_id, running_sessions(w.sessions), now);
            },
            Happening::AgentsNormalized => {
                lemma_normalize(w, agent, task_id, now);
            },
            Happening::ServerStarted { .. }
            | Happening::ServerListens { .. }
            | Happening::ServerReported { .. }
            | Happening::ServerFailed { .. }
            | Happening::ServerReset { .. }
            | Happening::ServerEnded { .. } => {
                lemma_managed(w, agent, task_id, h, now);
            },
            _ => {
                lemma_round(w, agent, task_id, h, now);
            },
        }
    }
}

/// Whether at every point of the course the agent is spared and the task is still open.
pub open spec fn open_throughout(
    w: World,
    course: Seq<(Happening, Timestamp)>,
    agent: Seq<char>,
    task_id: Seq<char>,
) -> bool
    decreases course.len(),
{
    course.len() > 0 ==> {
        let before = course.drop_last();
        &&& open_throughout(w, before, agent, task_id)
        &&& spares(w.in_the_end(before), course.last().0, agent)
        &&& is_open(w.in_the_end(course).tasks, task_id)
    }
}

/// Where an agent without an open task is given one, it works on that task.
pub proof fn creation_binds_the_agent(
    w: World,
    from: Seq<char>,
    to: Seq<char>,
    draft: DraftModel,
    by: Option<Seq<char>>,
    summary: Option<Seq<char>>,
    reason: Seq<char>,
    task_id: Seq<char>,
    now: Timestamp,
)
    requires
        w.create_task(from, to, draft, by, summary, reason, task_id, now).1 is Ok,
        forall|k: Seq<char>| k != task_id ==> !#[trigger] open_to(w, k, to),
    ensures
        bound(w.create_task(from, to, draft, by, summary, reason, task_id, now).0, to, task_id),
{
    broadcast use {sync_stays, emit_stays, found_after_put, found_has_its_key};

    let target = w.agent(to)->Some_0;
    let d = normal_draft(target.cwd, draft)->Ok_0;
    let task = new_task(from, to, d, by, summary, task_id, now);
    let v = w.create_task(from, to, draft, by, summary, reason, task_id, now).0;
    let stored = w.emit(EffectModel::InsertTask { task }).emit(
        EffectModel::InsertTaskEvent {
            task_id: task.task_id,
            event_type: "task_created"@,
            from_state: None,
            to_state: Some(TaskState::Pending),
            payload: "{}"@,
        },
    );
    let begun = World { tasks: put(stored.tasks, task), ..stored }.claim_task(to, task_id, now);
    assert(at_most(begun, to, task_id)) by {
        reveal(at_most);
        assert forall|k: Seq<char>| #[trigger] open_to(begun, k, to) implies k == task_id by {
            if k != task_id {
                assert(!open_to(w, k, to));
            }
        }
    }
    assert(at_most(v, to, task_id));
    assert(v.task(task_id) == Some(task));
    at_most_is_bound(v, to, task_id);
}

/// An agent with a task is refused every other: from the time at which it works on a
/// task, through whatever happens while the task is open, no further task can be created
/// for it, and the attempt changes nothing.
pub proof fn one_task_until_it_ends(
    w: World,
    course: Seq<(Happening, Timestamp)>,
    agent: Seq<char>,
    task_id: Seq<char>,
    from: Seq<char>,
    draft: DraftModel,
    by: Option<Seq<char>>,
    summary: Option<Seq<char>>,
    reason: Seq<char>,
    new_id: Seq<char>,
    now: Timestamp,
)
    requires
        w.tidy(),
        bound(w, agent, task_id),
        open_throughout(w, course, agent, task_id),
    ensures
        bound(w.in_the_end(course), agent, task_id),
        ({
            let v = w.in_the_end(course);
            let r = v.create_task(from, agent, draft, by, summary, reason, new_id, now);
            r.0 == v && r.1 is Err
        }),
    decreases course.len(),
{
    if course.len() > 0 {
        let before = course.drop_last();
        one_task_until_it_ends(
            w,
            before,
            agent,
            task_id,
            from,
            draft,
            by,
            summary,
            reason,
            new_id,
            now,
        );
        course_keeps_order(w, before);
        let (h, at) = course.last();
        agent_stays_on_its_task(w.in_the_end(before), h, at, agent, task_id);
    }
    lemma_bound(w.in_the_end(course), agent, task_id);
}

} // verus!
