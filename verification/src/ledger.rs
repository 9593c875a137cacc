//! Every change of a record is written down: what is sent to the database gives
//! the records in memory again.

use vstd::prelude::*;

use crate::agents::fresh_agent;
use crate::backend::{BackendEvent, BackendFinished};
use crate::bridge::ConnectionModel;
use crate::control::ControlRequest;
use crate::course::Happening;
use crate::decision::{latest_decision, mirrors_decision, with_decision};
use crate::dispatch::{matter, Matter, RequestFacts};
use crate::keeping::{lemma_repair_agents, lemma_repair_sessions, lemma_repair_tasks};
use crate::models::{
    AgentModel, AgentRole, AppServerOwner, BridgeClientMessage, BridgeConnectionState,
    BridgeDeliveryKind, BridgeMode, CodexSessionStatus, DecisionModel, DraftModel, PayloadModel,
    RoundModel, SessionMode, SessionModel, TaskModel, TaskState, VisiblePaneKind,
};
use crate::removal::{kept, tasks_of, DeletedRows, PlanModel, Removable};
use crate::repair::{
    fix_agent, fix_session, fix_task, repair_agents, repair_sessions, repair_tasks, Handles,
};
use crate::rounds::RoundStartModel;
use crate::sessions::new_session;
use crate::startup::{
    mirror_effects, mirrored_tasks, normal_agent, normal_agents, normal_effects, normalized,
    running_sessions, startup_cwd,
};
use crate::state::{EffectModel, World};
use crate::table::{distinct, lemma_place_is, put, without, Keyed};
use crate::time::Timestamp;

verus! {

/// The agents that the database holds after these effects.
pub open spec fn stored_agents(agents: Seq<AgentModel>, effects: Seq<EffectModel>) -> Seq<AgentModel>
    decreases effects.len(),
{
    if effects.len() == 0 {
        agents
    } else {
        let before = stored_agents(agents, effects.drop_last());
        match effects.last() {
            EffectModel::SaveAgent { agent } => put(before, agent),
            _ => before,
        }
    }
}

/// The tasks that the database holds after these effects.
pub open spec fn stored_tasks(tasks: Seq<TaskModel>, effects: Seq<EffectModel>) -> Seq<TaskModel>
    decreases effects.len(),
{
    if effects.len() == 0 {
        tasks
    } else {
        let before = stored_tasks(tasks, effects.drop_last());
        match effects.last() {
            EffectModel::InsertTask { task } => put(before, task),
            EffectModel::UpdateTask { task } => put(before, task),
            _ => before,
        }
    }
}

/// The decisions that the database holds after these effects.
pub open spec fn stored_decisions(
    decisions: Seq<DecisionModel>,
    effects: Seq<EffectModel>,
) -> Seq<DecisionModel>
    decreases effects.len(),
{
    if effects.len() == 0 {
        decisions
    } else {
        let before = stored_decisions(decisions, effects.drop_last());
        match effects.last() {
            EffectModel::InsertDecision { decision } => put(before, decision),
            EffectModel::AcknowledgeDecision { decision } => put(before, decision),
            _ => before,
        }
    }
}

/// The sessions that the database holds after these effects.
pub open spec fn stored_sessions(
    sessions: Seq<SessionModel>,
    effects: Seq<EffectModel>,
) -> Seq<SessionModel>
    decreases effects.len(),
{
    if effects.len() == 0 {
        sessions
    } else {
        let before = stored_sessions(sessions, effects.drop_last());
        match effects.last() {
            EffectModel::SaveSession { session } => put(before, session),
            _ => before,
        }
    }
}

/// The effects that have come since.
pub open spec fn since(base: World, w: World) -> Seq<EffectModel> {
    w.outbox.skip(base.outbox.len() as int)
}

/// Whether a database that held the records of the first world holds those of the
/// second, once the effects since are performed.
pub open spec fn written_down(base: World, w: World) -> bool {
    &&& base.outbox.len() <= w.outbox.len()
    &&& w.outbox.take(base.outbox.len() as int) == base.outbox
    &&& w.agents == stored_agents(base.agents, since(base, w))
    &&& w.tasks == stored_tasks(base.tasks, since(base, w))
    &&& w.decisions == stored_decisions(base.decisions, since(base, w))
    &&& w.sessions == stored_sessions(base.sessions, since(base, w))
}

/// Whether the effect writes one of the records that are kept in memory.
pub open spec fn stores(effect: EffectModel) -> bool {
    match effect {
        EffectModel::SaveAgent { .. }
        | EffectModel::InsertTask { .. }
        | EffectModel::UpdateTask { .. }
        | EffectModel::InsertDecision { .. }
        | EffectModel::AcknowledgeDecision { .. }
        | EffectModel::SaveSession { .. } => true,
        _ => false,
    }
}

proof fn lemma_since(base: World, w: World, effect: EffectModel)
    requires
        base.outbox.len() <= w.outbox.len(),
        w.outbox.take(base.outbox.len() as int) == base.outbox,
    ensures
        since(base, w.emit(effect)) == since(base, w).push(effect),
        since(base, w.emit(effect)).drop_last() == since(base, w),
        since(base, w.emit(effect)).last() == effect,
        base.outbox.len() <= w.emit(effect).outbox.len(),
        w.emit(effect).outbox.take(base.outbox.len() as int) == base.outbox,
{
    assert(since(base, w.emit(effect)) =~= since(base, w).push(effect));
    assert(since(base, w).push(effect).drop_last() =~= since(base, w));
    assert(w.emit(effect).outbox.take(base.outbox.len() as int) =~= base.outbox);
}

/// A world is written down in itself.
pub proof fn lemma_written_down_start(w: World)
    ensures
        written_down(w, w),
{
    assert(since(w, w) =~= Seq::empty());
    assert(w.outbox.take(w.outbox.len() as int) =~= w.outbox);
}

broadcast proof fn emit_is_written(base: World, w: World, effect: EffectModel)
    requires
        written_down(base, w),
        !stores(effect),
    ensures
        #![trigger w.emit(effect), written_down(base, w)]
        written_down(base, w.emit(effect)),
{
    lemma_since(base, w, effect);
}

broadcast proof fn persist_agent_is_written(base: World, w: World, agent: AgentModel)
    requires
        written_down(base, w),
    ensures
        #![trigger w.persist_agent(agent), written_down(base, w)]
        written_down(base, w.persist_agent(agent)),
{
    lemma_save_agent(base, w, agent);
    let stored = w.emit(EffectModel::SaveAgent { agent });
    let kept = World { agents: put(stored.agents, agent), ..stored };
    lemma_since(
        base,
        kept,
        EffectModel::Publish {
            event: crate::models::DashboardModel::AgentStateChanged { agent },
        },
    );
}

proof fn lemma_save_agent(base: World, w: World, agent: AgentModel)
    requires
        written_down(base, w),
    ensures
        ({
            let stored = w.emit(EffectModel::SaveAgent { agent });
            written_down(base, World { agents: put(stored.agents, agent), ..stored })
        }),
{
    let stored = w.emit(EffectModel::SaveAgent { agent });
    let kept = World { agents: put(stored.agents, agent), ..stored };
    lemma_since(base, w, EffectModel::SaveAgent { agent });
    assert(since(base, kept) == since(base, stored));
}

proof fn lemma_update_task(base: World, w: World, task: TaskModel)
    requires
        written_down(base, w),
    ensures
        ({
            let stored = w.emit(EffectModel::UpdateTask { task });
            written_down(base, World { tasks: put(stored.tasks, task), ..stored })
        }),
{
    let stored = w.emit(EffectModel::UpdateTask { task });
    let kept = World { tasks: put(stored.tasks, task), ..stored };
    lemma_since(base, w, EffectModel::UpdateTask { task });
    assert(since(base, kept) == since(base, stored));
}

broadcast proof fn persist_task_is_written(
    base: World,
    w: World,
    task: TaskModel,
    event_type: Seq<char>,
)
    requires
        written_down(base, w),
    ensures
        #![trigger w.persist_task(task, event_type), written_down(base, w)]
        written_down(base, w.persist_task(task, event_type)),
{
    lemma_update_task(base, w, task);
    let stored = w.emit(EffectModel::UpdateTask { task });
    let kept = World { tasks: put(stored.tasks, task), ..stored };
    emit_is_written(
        base,
        kept,
        EffectModel::Publish {
            event: crate::models::DashboardModel::TaskEvent { task, event_type },
        },
    );
}

broadcast proof fn move_task_is_written(
    base: World,
    w: World,
    task: TaskModel,
    event_type: Seq<char>,
    from: TaskState,
)
    requires
        written_down(base, w),
    ensures
        #![trigger w.move_task(task, event_type, from), written_down(base, w)]
        written_down(base, w.move_task(task, event_type, from)),
{
    let effect = EffectModel::InsertTaskEvent {
        task_id: task.task_id,
        event_type,
        from_state: Some(from),
        to_state: Some(task.state),
        payload: "{}"@,
    };
    let first = w.emit(EffectModel::UpdateTask { task });
    let kept = World { tasks: put(first.tasks, task), ..first };
    lemma_update_task(base, w, task);
    emit_is_written(base, kept, effect);
    let both = first.emit(effect);
    assert(kept.emit(effect) == (World { tasks: put(both.tasks, task), ..both }));
    emit_is_written(
        base,
        kept.emit(effect),
        EffectModel::Publish {
            event: crate::models::DashboardModel::TaskEvent { task, event_type },
        },
    );
}

proof fn lemma_insert_task(base: World, w: World, task: TaskModel, effect: EffectModel)
    requires
        written_down(base, w),
        !stores(effect),
    ensures
        ({
            let stored = w.emit(EffectModel::InsertTask { task }).emit(effect);
            written_down(base, World { tasks: put(stored.tasks, task), ..stored })
        }),
{
    let first = w.emit(EffectModel::InsertTask { task });
    let kept = World { tasks: put(first.tasks, task), ..first };
    lemma_since(base, w, EffectModel::InsertTask { task });
    assert(since(base, kept) == since(base, first));
    emit_is_written(base, kept, effect);
    let both = first.emit(effect);
    assert(kept.emit(effect) == (World { tasks: put(both.tasks, task), ..both }));
}

proof fn lemma_store_decision(base: World, w: World, decision: DecisionModel)
    requires
        written_down(base, w),
    ensures
        ({
            let stored = w.emit(EffectModel::InsertDecision { decision });
            written_down(base, World { decisions: put(stored.decisions, decision), ..stored })
        }),
        ({
            let stored = w.emit(EffectModel::AcknowledgeDecision { decision });
            written_down(base, World { decisions: put(stored.decisions, decision), ..stored })
        }),
{
    let a = w.emit(EffectModel::InsertDecision { decision });
    lemma_since(base, w, EffectModel::InsertDecision { decision });
    assert(since(base, World { decisions: put(a.decisions, decision), ..a }) == since(base, a));
    let b = w.emit(EffectModel::AcknowledgeDecision { decision });
    lemma_since(base, w, EffectModel::AcknowledgeDecision { decision });
    assert(since(base, World { decisions: put(b.decisions, decision), ..b }) == since(base, b));
}

proof fn lemma_save_session(base: World, w: World, session: SessionModel)
    requires
        written_down(base, w),
    ensures
        ({
            let stored = w.emit(EffectModel::SaveSession { session });
            written_down(base, World { sessions: put(stored.sessions, session), ..stored })
        }),
{
    let stored = w.emit(EffectModel::SaveSession { session });
    lemma_since(base, w, EffectModel::SaveSession { session });
    assert(since(base, World { sessions: put(stored.sessions, session), ..stored }) == since(
        base,
        stored,
    ));
}

/// Changes that touch no record and no effect change nothing that is written down.
broadcast proof fn other_parts_do_not_matter(base: World, w: World, v: World)
    requires
        written_down(base, w),
        v.outbox == w.outbox,
        v.agents == w.agents,
        v.tasks == w.tasks,
        v.decisions == w.decisions,
        v.sessions == w.sessions,
    ensures
        #![trigger written_down(base, w), written_down(base, v)]
        written_down(base, v),
{
}

broadcast proof fn record_stream_is_written(
    base: World,
    w: World,
    session_id: Option<Seq<char>>,
    agent: Seq<char>,
    stream: Seq<char>,
    content: Seq<char>,
    now: Timestamp,
)
    requires
        written_down(base, w),
    ensures
        #![trigger w.record_stream(session_id, agent, stream, content, now), written_down(base, w)]
        written_down(base, w.record_stream(session_id, agent, stream, content, now)),
{
    let effect = EffectModel::AppendStream { session_id, agent, stream, content };
    emit_is_written(base, w, effect);
    let stored = w.emit(effect);
    let touched = match session_id {
        Some(id) => stored.touch_session_output(id, now),
        None => stored,
    };
    if let Some(id) = session_id {
        if let Some(session) = stored.session(id) {
            lemma_save_session(
                base,
                stored,
                SessionModel { last_output_at: Some(now), ..session },
            );
        }
    }
    assert(written_down(base, touched));
    let event = crate::models::StreamModel { session_id, agent, stream, content, at: now };
    let kept = World {
        recent_streams: crate::state::newest(
            touched.recent_streams.push(event),
            crate::state::MAX_RECENT_STREAMS as nat,
        ),
        ..touched
    };
    other_parts_do_not_matter(base, touched, kept);
    emit_is_written(
        base,
        kept,
        EffectModel::Publish {
            event: crate::models::DashboardModel::StreamChunk { event },
        },
    );
}

broadcast proof fn queue_is_written(
    base: World,
    w: World,
    recipient: Seq<char>,
    kind: BridgeDeliveryKind,
    task: Option<TaskModel>,
    decision: Option<DecisionModel>,
    reason: Option<Seq<char>>,
    now: Timestamp,
)
    requires
        written_down(base, w),
    ensures
        #![trigger w.queue_bridge_delivery(recipient, kind, task, decision, reason, now), written_down(base, w)]
        written_down(base, w.queue_bridge_delivery(recipient, kind, task, decision, reason, now)),
{
    broadcast use {emit_is_written, persist_agent_is_written};

    if let Some(_) = w.agent(recipient) {
        let q = crate::bridge::queue_or_new(w.bridge_queues, recipient);
        let id = crate::bridge::next_id(q);
        let delivery = crate::models::DeliveryModel {
            delivery_id: id,
            agent: recipient,
            kind,
            task,
            decision,
            reason,
            created_at: now,
        };
        let filled = World {
            bridge_queues: put(
                w.bridge_queues,
                crate::state::QueueModel {
                    agent_name: recipient,
                    next_delivery_id: id,
                    pending: crate::bridge::enqueued(q.pending, delivery),
                },
            ),
            ..w
        };
        other_parts_do_not_matter(base, w, filled);
    }
}

broadcast proof fn sync_is_written(
    base: World,
    w: World,
    task: TaskModel,
    reason: Seq<char>,
    now: Timestamp,
)
    requires
        written_down(base, w),
    ensures
        #![trigger w.sync_bridge_for_task(task, reason, now), written_down(base, w)]
        written_down(base, w.sync_bridge_for_task(task, reason, now)),
{
    broadcast use {queue_is_written};

}

broadcast proof fn transition_is_written(
    base: World,
    w: World,
    task: TaskModel,
    next: TaskState,
    event_type: Seq<char>,
    actor: Option<Seq<char>>,
    now: Timestamp,
)
    requires
        written_down(base, w),
    ensures
        #![trigger w.transition(task, next, event_type, actor, now), written_down(base, w)]
        written_down(base, w.transition(task, next, event_type, actor, now).0),
{
    broadcast use {move_task_is_written, emit_is_written, sync_is_written};

}

broadcast proof fn transition_task_is_written(
    base: World,
    w: World,
    task_id: Seq<char>,
    agent: Seq<char>,
    expected: TaskState,
    next: TaskState,
    event_type: Seq<char>,
    now: Timestamp,
)
    requires
        written_down(base, w),
    ensures
        #![trigger w.transition_task(task_id, agent, expected, next, event_type, now), written_down(base, w)]
        written_down(base, w.transition_task(task_id, agent, expected, next, event_type, now).0),
{
    broadcast use {transition_is_written};

}

broadcast proof fn mirror_is_written(
    base: World,
    w: World,
    task: TaskModel,
    decision: DecisionModel,
    event_type: Seq<char>,
    now: Timestamp,
)
    requires
        written_down(base, w),
    ensures
        #![trigger w.mirror_decision(task, decision, event_type, now), written_down(base, w)]
        written_down(base, w.mirror_decision(task, decision, event_type, now)),
{
    broadcast use {persist_task_is_written, emit_is_written};

}

broadcast proof fn feedback_is_written(
    base: World,
    w: World,
    task: TaskModel,
    status: Seq<char>,
    summary: Option<Seq<char>>,
    blocking: Option<Seq<char>>,
    topic: Option<Seq<char>>,
    details: Option<Seq<char>>,
    event_type: Seq<char>,
    now: Timestamp,
)
    requires
        written_down(base, w),
    ensures
        #![trigger w.child_feedback(task, status, summary, blocking, topic, details, event_type, now), written_down(base, w)]
        written_down(base, w.child_feedback(task, status, summary, blocking, topic, details, event_type, now).0),
{
    broadcast use {persist_task_is_written, emit_is_written, sync_is_written};

}

broadcast proof fn send_decision_is_written(
    base: World,
    w: World,
    task_id: Seq<char>,
    issued_by: Seq<char>,
    target: Seq<char>,
    summary: Seq<char>,
    decision_id: Seq<char>,
    now: Timestamp,
)
    requires
        written_down(base, w),
    ensures
        #![trigger w.send_decision(task_id, issued_by, target, summary, decision_id, now), written_down(base, w)]
        written_down(base, w.send_decision(task_id, issued_by, target, summary, decision_id, now).0),
{
    broadcast use {transition_task_is_written, mirror_is_written, emit_is_written};

    if let Some(assigned) = w.task(task_id) {
        let moved = w.transition_task(
            assigned.task_id,
            assigned.to_agent,
            TaskState::Analyzed,
            TaskState::DecisionSent,
            "decision_sent"@,
            now,
        );
        if let Ok(task) = moved.1 {
            lemma_store_decision(
                base,
                moved.0,
                DecisionModel {
                    decision_id,
                    task_id: task.task_id,
                    issued_by,
                    target_agent: target,
                    summary,
                    status: "sent"@,
                    created_at: now,
                    acknowledged_at: None,
                },
            );
        }
    }
}

broadcast proof fn acknowledge_is_written(
    base: World,
    w: World,
    task_id: Seq<char>,
    agent: Seq<char>,
    emit_stream: bool,
    now: Timestamp,
)
    requires
        written_down(base, w),
    ensures
        #![trigger w.acknowledge_decision(task_id, agent, emit_stream, now), written_down(base, w)]
        written_down(base, w.acknowledge_decision(task_id, agent, emit_stream, now).0),
{
    broadcast use {mirror_is_written, emit_is_written, record_stream_is_written};

    if let Some(d) = crate::decision::newest_decision(w.decisions, task_id, Some(agent), true) {
        lemma_store_decision(
            base,
            w,
            DecisionModel { status: "acknowledged"@, acknowledged_at: Some(now), ..d },
        );
    }
}

broadcast proof fn reopen_is_written(
    base: World,
    w: World,
    task_id: Seq<char>,
    agent: Seq<char>,
    now: Timestamp,
)
    requires
        written_down(base, w),
    ensures
        #![trigger w.reopen_for_next_round(task_id, agent, now), written_down(base, w)]
        written_down(base, w.reopen_for_next_round(task_id, agent, now).0),
{
    broadcast use {acknowledge_is_written, transition_task_is_written, persist_agent_is_written};

}

broadcast proof fn close_is_written(
    base: World,
    w: World,
    task_id: Seq<char>,
    agent: Seq<char>,
    now: Timestamp,
)
    requires
        written_down(base, w),
    ensures
        #![trigger w.close_after_decision(task_id, agent, now), written_down(base, w)]
        written_down(base, w.close_after_decision(task_id, agent, now).0),
{
    broadcast use {acknowledge_is_written, transition_task_is_written, persist_agent_is_written};

}

broadcast proof fn analyze_is_written(
    base: World,
    w: World,
    task_id: Seq<char>,
    analyzer: Seq<char>,
    now: Timestamp,
)
    requires
        written_down(base, w),
    ensures
        #![trigger w.analyze_task(task_id, analyzer, now), written_down(base, w)]
        written_down(base, w.analyze_task(task_id, analyzer, now).0),
{
    broadcast use {transition_is_written, record_stream_is_written};

}

broadcast proof fn resolve_is_written(
    base: World,
    w: World,
    task_id: Seq<char>,
    analyzer: Seq<char>,
    summary: Seq<char>,
    decision_id: Seq<char>,
    now: Timestamp,
)
    requires
        written_down(base, w),
    ensures
        #![trigger w.resolve_task(task_id, analyzer, summary, decision_id, now), written_down(base, w)]
        written_down(base, w.resolve_task(task_id, analyzer, summary, decision_id, now).0),
{
    broadcast use {analyze_is_written, send_decision_is_written, reopen_is_written};

}

broadcast proof fn decide_is_written(
    base: World,
    w: World,
    task_id: Seq<char>,
    issued_by: Seq<char>,
    target: Seq<char>,
    summary: Seq<char>,
    auto_close: bool,
    decision_id: Seq<char>,
    now: Timestamp,
)
    requires
        written_down(base, w),
    ensures
        #![trigger w.decide_task(task_id, issued_by, target, summary, auto_close, decision_id, now), written_down(base, w)]
        written_down(base, w.decide_task(task_id, issued_by, target, summary, auto_close, decision_id, now).0),
{
    broadcast use {send_decision_is_written, reopen_is_written, close_is_written};

}

broadcast proof fn accept_and_run_is_written(
    base: World,
    w: World,
    task_id: Seq<char>,
    agent: Seq<char>,
    now: Timestamp,
)
    requires
        written_down(base, w),
    ensures
        #![trigger w.accept_and_run(task_id, agent, now), written_down(base, w)]
        written_down(base, w.accept_and_run(task_id, agent, now).0),
{
    broadcast use {transition_task_is_written};

}

broadcast proof fn finalize_round_is_written(
    base: World,
    w: World,
    task: TaskModel,
    payload: PayloadModel,
    thread_id: Option<Seq<char>>,
    completed_at: Timestamp,
    raw: Seq<char>,
    history_event: Seq<char>,
    stream_label: Seq<char>,
    decision_id: Seq<char>,
    now: Timestamp,
)
    requires
        written_down(base, w),
    ensures
        #![trigger w.finalize_round(task, payload, thread_id, completed_at, raw, history_event, stream_label, decision_id, now), written_down(base, w)]
        written_down(base, w.finalize_round(task, payload, thread_id, completed_at, raw, history_event, stream_label, decision_id, now).0),
{
    broadcast use {transition_task_is_written, record_stream_is_written, persist_agent_is_written, emit_is_written, feedback_is_written, resolve_is_written};

    let ended = w.end_round(task, payload.status, now);
    assert(written_down(base, ended.0));
}

broadcast proof fn create_task_is_written(
    base: World,
    w: World,
    from: Seq<char>,
    to: Seq<char>,
    draft: DraftModel,
    by: Option<Seq<char>>,
    summary: Option<Seq<char>>,
    reason: Seq<char>,
    task_id: Seq<char>,
    now: Timestamp,
)
    requires
        written_down(base, w),
    ensures
        #![trigger w.create_task(from, to, draft, by, summary, reason, task_id, now), written_down(base, w)]
        written_down(base, w.create_task(from, to, draft, by, summary, reason, task_id, now).0),
{
    broadcast use {persist_agent_is_written, emit_is_written, sync_is_written};

    if let Some(target) = w.agent(to) {
        if let Ok(d) = crate::draft::normal_draft(target.cwd, draft) {
            let task = crate::work::new_task(from, to, d, by, summary, task_id, now);
            lemma_insert_task(
                base,
                w,
                task,
                EffectModel::InsertTaskEvent {
                    task_id: task.task_id,
                    event_type: "task_created"@,
                    from_state: None,
                    to_state: Some(TaskState::Pending),
                    payload: "{}"@,
                },
            );
        }
    }
}

broadcast proof fn begin_visible_is_written(
    base: World,
    w: World,
    agent: Seq<char>,
    now: Timestamp,
)
    requires
        written_down(base, w),
    ensures
        #![trigger w.begin_visible_task(agent, now), written_down(base, w)]
        written_down(base, w.begin_visible_task(agent, now).0),
{
    broadcast use {accept_and_run_is_written, transition_task_is_written};

}

broadcast proof fn submit_visible_is_written(
    base: World,
    w: World,
    task_id: Seq<char>,
    agent: Seq<char>,
    payload: PayloadModel,
    rendered: Seq<char>,
    decision_id: Seq<char>,
    now: Timestamp,
)
    requires
        written_down(base, w),
    ensures
        #![trigger w.submit_visible_round(task_id, agent, payload, rendered, decision_id, now), written_down(base, w)]
        written_down(base, w.submit_visible_round(task_id, agent, payload, rendered, decision_id, now).0),
{
    broadcast use {finalize_round_is_written};

}

broadcast proof fn cancel_is_written(
    base: World,
    w: World,
    task_id: Seq<char>,
    requested_by: Seq<char>,
    now: Timestamp,
)
    requires
        written_down(base, w),
    ensures
        #![trigger w.cancel_task(task_id, requested_by, now), written_down(base, w)]
        written_down(base, w.cancel_task(task_id, requested_by, now).0),
{
    broadcast use {transition_is_written, persist_agent_is_written, record_stream_is_written, emit_is_written};

}

broadcast proof fn retry_is_written(
    base: World,
    w: World,
    task_id: Seq<char>,
    requested_by: Seq<char>,
    now: Timestamp,
)
    requires
        written_down(base, w),
    ensures
        #![trigger w.retry_task(task_id, requested_by, now), written_down(base, w)]
        written_down(base, w.retry_task(task_id, requested_by, now).0),
{
    broadcast use {move_task_is_written, persist_agent_is_written, record_stream_is_written, emit_is_written};

}

broadcast proof fn report_is_written(
    base: World,
    w: World,
    task_id: Seq<char>,
    agent: Seq<char>,
    blocking: Seq<char>,
    topic: Seq<char>,
    details: Seq<char>,
    now: Timestamp,
)
    requires
        written_down(base, w),
    ensures
        #![trigger w.report_task(task_id, agent, blocking, topic, details, now), written_down(base, w)]
        written_down(base, w.report_task(task_id, agent, blocking, topic, details, now).0),
{
    broadcast use {transition_task_is_written, persist_agent_is_written, record_stream_is_written, emit_is_written, feedback_is_written};

}

broadcast proof fn register_is_written(base: World, w: World, agent: AgentModel)
    requires
        written_down(base, w),
    ensures
        #![trigger w.register_agent(agent), written_down(base, w)]
        written_down(base, w.register_agent(agent)),
{
    broadcast use emit_is_written;

    lemma_save_agent(base, w, agent);
    let stored = w.emit(EffectModel::SaveAgent { agent });
    let kept = World { agents: put(stored.agents, agent), ..stored };
    other_parts_do_not_matter(base, kept, kept.ensure_bridge_queue(agent));
}

broadcast proof fn touch_is_written(
    base: World,
    w: World,
    agent: Seq<char>,
    now: Timestamp,
)
    requires
        written_down(base, w),
    ensures
        #![trigger w.touch_agent(agent, now), written_down(base, w)]
        written_down(base, w.touch_agent(agent, now).0),
{
    broadcast use {persist_agent_is_written};

}

broadcast proof fn begin_bootstrap_is_written(
    base: World,
    w: World,
    agent: Seq<char>,
    now: Timestamp,
)
    requires
        written_down(base, w),
    ensures
        #![trigger w.begin_bootstrap(agent, now), written_down(base, w)]
        written_down(base, w.begin_bootstrap(agent, now).0),
{
    broadcast use {persist_agent_is_written, record_stream_is_written, emit_is_written};

}

broadcast proof fn mark_ready_is_written(
    base: World,
    w: World,
    agent: Seq<char>,
    summary: Option<Seq<char>>,
    thread_id: Option<Seq<char>>,
    now: Timestamp,
)
    requires
        written_down(base, w),
    ensures
        #![trigger w.mark_ready(agent, summary, thread_id, now), written_down(base, w)]
        written_down(base, w.mark_ready(agent, summary, thread_id, now).0),
{
    broadcast use {persist_agent_is_written, record_stream_is_written, emit_is_written};

}

broadcast proof fn set_pane_is_written(
    base: World,
    w: World,
    agent: Seq<char>,
    pid: Option<u32>,
    kind: Option<VisiblePaneKind>,
    now: Timestamp,
)
    requires
        written_down(base, w),
    ensures
        #![trigger w.set_visible_pane(agent, pid, kind, now), written_down(base, w)]
        written_down(base, w.set_visible_pane(agent, pid, kind, now).0),
{
    broadcast use {persist_agent_is_written, emit_is_written};

}

broadcast proof fn set_server_is_written(
    base: World,
    w: World,
    agent: Seq<char>,
    url: Option<Seq<char>>,
    owner: Option<AppServerOwner>,
    now: Timestamp,
)
    requires
        written_down(base, w),
    ensures
        #![trigger w.set_app_server(agent, url, owner, now), written_down(base, w)]
        written_down(base, w.set_app_server(agent, url, owner, now).0),
{
    broadcast use {persist_agent_is_written, emit_is_written};

}

broadcast proof fn recover_is_written(
    base: World,
    w: World,
    agent: Seq<char>,
    now: Timestamp,
)
    requires
        written_down(base, w),
    ensures
        #![trigger w.recover_agent(agent, now), written_down(base, w)]
        written_down(base, w.recover_agent(agent, now).0),
{
    broadcast use {persist_agent_is_written, record_stream_is_written, emit_is_written};

}

broadcast proof fn reset_thread_is_written(
    base: World,
    w: World,
    agent: Seq<char>,
    now: Timestamp,
)
    requires
        written_down(base, w),
    ensures
        #![trigger w.reset_thread(agent, now), written_down(base, w)]
        written_down(base, w.reset_thread(agent, now).0),
{
    broadcast use {persist_agent_is_written, record_stream_is_written, emit_is_written};

}

broadcast proof fn start_ad_hoc_is_written(
    base: World,
    w: World,
    agent: Seq<char>,
    now: Timestamp,
)
    requires
        written_down(base, w),
    ensures
        #![trigger w.start_ad_hoc_round(agent, now), written_down(base, w)]
        written_down(base, w.start_ad_hoc_round(agent, now).0),
{
    broadcast use {persist_agent_is_written};

}

broadcast proof fn begin_task_round_is_written(
    base: World,
    w: World,
    task_id: Seq<char>,
    now: Timestamp,
)
    requires
        written_down(base, w),
    ensures
        #![trigger w.begin_task_round(task_id, now), written_down(base, w)]
        written_down(base, w.begin_task_round(task_id, now).0),
{
    broadcast use {accept_and_run_is_written};

}

broadcast proof fn begin_managed_is_written(
    base: World,
    w: World,
    agent: Seq<char>,
    now: Timestamp,
)
    requires
        written_down(base, w),
    ensures
        #![trigger w.begin_managed(agent, now), written_down(base, w)]
        written_down(base, w.begin_managed(agent, now).0),
{
    broadcast use {begin_bootstrap_is_written};

}

broadcast proof fn upsert_session_is_written(
    base: World,
    w: World,
    session: SessionModel,
    event_type: Seq<char>,
)
    requires
        written_down(base, w),
    ensures
        #![trigger w.upsert_session(session, event_type), written_down(base, w)]
        written_down(base, w.upsert_session(session, event_type)),
{
    broadcast use {emit_is_written};

    lemma_save_session(base, w, session);
}

broadcast proof fn finalize_session_is_written(
    base: World,
    w: World,
    session_id: Seq<char>,
    status: CodexSessionStatus,
    ended_at: Timestamp,
    clear: bool,
    now: Timestamp,
)
    requires
        written_down(base, w),
    ensures
        #![trigger w.finalize_session(session_id, status, ended_at, clear, now), written_down(base, w)]
        written_down(base, w.finalize_session(session_id, status, ended_at, clear, now).0),
{
    broadcast use {upsert_session_is_written, persist_agent_is_written};

}

broadcast proof fn start_round_is_written(
    base: World,
    w: World,
    session: SessionModel,
    now: Timestamp,
)
    requires
        written_down(base, w),
    ensures
        #![trigger w.start_round_session(session, now), written_down(base, w)]
        written_down(base, w.start_round_session(session, now).0),
{
    broadcast use {upsert_session_is_written, persist_agent_is_written};

}

broadcast proof fn session_event_is_written(
    base: World,
    w: World,
    session_id: Seq<char>,
    agent: Seq<char>,
    event: BackendEvent,
    now: Timestamp,
)
    requires
        written_down(base, w),
    ensures
        #![trigger w.session_event(session_id, agent, event, now), written_down(base, w)]
        written_down(base, w.session_event(session_id, agent, event, now)),
{
    broadcast use {upsert_session_is_written, record_stream_is_written};

}

broadcast proof fn finish_round_is_written(
    base: World,
    w: World,
    session_id: Seq<char>,
    agent: Seq<char>,
    finished: BackendFinished,
    now: Timestamp,
)
    requires
        written_down(base, w),
    ensures
        #![trigger w.finish_round_session(session_id, agent, finished, now), written_down(base, w)]
        written_down(base, w.finish_round_session(session_id, agent, finished, now).0),
{
    broadcast use {finalize_session_is_written};

    let left = World {
        active_sessions: crate::table::without(w.active_sessions, session_id),
        ..w
    };
    other_parts_do_not_matter(base, w, left);
}

broadcast proof fn finish_ad_hoc_is_written(
    base: World,
    w: World,
    agent: Seq<char>,
    round: RoundModel,
    kept_thread: Option<Seq<char>>,
    missing: Seq<char>,
    now: Timestamp,
)
    requires
        written_down(base, w),
    ensures
        #![trigger w.finish_ad_hoc_round(agent, round, kept_thread, missing, now), written_down(base, w)]
        written_down(base, w.finish_ad_hoc_round(agent, round, kept_thread, missing, now).0),
{
    broadcast use {persist_agent_is_written, record_stream_is_written};

}

broadcast proof fn fail_ad_hoc_is_written(
    base: World,
    w: World,
    agent: Seq<char>,
    message: Seq<char>,
    now: Timestamp,
)
    requires
        written_down(base, w),
    ensures
        #![trigger w.fail_ad_hoc_round(agent, message, now), written_down(base, w)]
        written_down(base, w.fail_ad_hoc_round(agent, message, now).0),
{
    broadcast use {persist_agent_is_written};

}

broadcast proof fn fail_task_round_is_written(
    base: World,
    w: World,
    start: RoundStartModel,
    message: Seq<char>,
    now: Timestamp,
)
    requires
        written_down(base, w),
    ensures
        #![trigger w.fail_task_round(start, message, now), written_down(base, w)]
        written_down(base, w.fail_task_round(start, message, now).0),
{
    broadcast use {transition_task_is_written, persist_agent_is_written};

}

broadcast proof fn finish_task_round_is_written(
    base: World,
    w: World,
    start: RoundStartModel,
    round: RoundModel,
    payload: Option<PayloadModel>,
    decision_id: Seq<char>,
    now: Timestamp,
)
    requires
        written_down(base, w),
    ensures
        #![trigger w.finish_task_round(start, round, payload, decision_id, now), written_down(base, w)]
        written_down(base, w.finish_task_round(start, round, payload, decision_id, now).0),
{
    broadcast use {finalize_round_is_written};

}

/// Filing a record over the one with its key, where the key stands only there.
proof fn lemma_put_over<R: Keyed>(done: Seq<R>, old: R, new: R, rest: Seq<R>)
    requires
        old.key() == new.key(),
        forall|i: int| 0 <= i < done.len() ==> (#[trigger] done[i]).key() != old.key(),
    ensures
        put(done + (seq![old] + rest), new) == done.push(new) + rest,
{
    let all = done + (seq![old] + rest);
    let n = done.len() as int;
    assert(all[n] == old);
    assert forall|i: int| 0 <= i < n implies (#[trigger] all[i]).key() != new.key() by {
        assert(all[i] == done[i]);
    }
    lemma_place_is(all, new.key(), n);
    assert(put(all, new) =~= done.push(new) + rest);
}

proof fn lemma_repaired_tasks_written(
    tasks: Seq<TaskModel>,
    decisions: Seq<DecisionModel>,
    rest: Seq<TaskModel>,
    now: Timestamp,
)
    requires
        distinct(tasks + rest),
    ensures
        stored_tasks(tasks + rest, repair_tasks(tasks, decisions, now).effects) == repair_tasks(
            tasks,
            decisions,
            now,
        ).records + rest,
        forall|i: int|
            0 <= i < repair_tasks(tasks, decisions, now).effects.len() ==> {
                let e = #[trigger] repair_tasks(tasks, decisions, now).effects[i];
                e is UpdateTask || e is InsertTaskEvent
            },
    decreases tasks.len(),
{
    let r = repair_tasks(tasks, decisions, now);
    if tasks.len() == 0 {
        assert(tasks + rest =~= rest);
        assert(r.records + rest =~= rest);
    } else {
        let head = tasks.drop_last();
        let t = tasks.last();
        let more = seq![t] + rest;
        assert(head + more =~= tasks + rest);
        lemma_repaired_tasks_written(head, decisions, more, now);
        lemma_repair_tasks(head, decisions, now);
        let h = repair_tasks(head, decisions, now);
        let f = fix_task(t, decisions, now);
        if f.changed {
            let first = EffectModel::UpdateTask { task: f.record };
            let second = EffectModel::InsertTaskEvent {
                task_id: t.task_id,
                event_type: "task_repaired"@,
                from_state: Some(t.state),
                to_state: Some(t.state),
                payload: "{}"@,
            };
            assert(r.effects =~= h.effects.push(first).push(second));
            assert(r.effects.drop_last() =~= h.effects.push(first));
            assert(h.effects.push(first).drop_last() =~= h.effects);
            assert(stored_tasks(tasks + rest, h.effects.push(first)) == put(
                stored_tasks(tasks + rest, h.effects),
                f.record,
            ));
            assert(stored_tasks(tasks + rest, r.effects) == stored_tasks(
                tasks + rest,
                h.effects.push(first),
            ));
            assert forall|i: int| 0 <= i < h.records.len() implies (#[trigger] h.records[i]).key()
                != t.key() by {
                assert((tasks + rest)[i].key() != (tasks + rest)[tasks.len() - 1].key());
            }
            lemma_put_over(h.records, t, f.record, rest);
        } else {
            assert(r.effects =~= h.effects);
            assert(h.records + more =~= r.records + rest);
        }
    }
}

proof fn lemma_repaired_sessions_written(
    sessions: Seq<SessionModel>,
    live: Handles,
    rest: Seq<SessionModel>,
    now: Timestamp,
)
    requires
        distinct(sessions + rest),
    ensures
        stored_sessions(sessions + rest, repair_sessions(sessions, live, now).effects)
            == repair_sessions(sessions, live, now).records + rest,
        forall|i: int|
            0 <= i < repair_sessions(sessions, live, now).effects.len()
                ==> #[trigger] repair_sessions(sessions, live, now).effects[i] is SaveSession,
    decreases sessions.len(),
{
    let r = repair_sessions(sessions, live, now);
    if sessions.len() == 0 {
        assert(sessions + rest =~= rest);
        assert(r.records + rest =~= rest);
    } else {
        let head = sessions.drop_last();
        let s = sessions.last();
        let more = seq![s] + rest;
        assert(head + more =~= sessions + rest);
        lemma_repaired_sessions_written(head, live, more, now);
        lemma_repair_sessions(head, live, now);
        let h = repair_sessions(head, live, now);
        let f = fix_session(s, live, now);
        if f.changed {
            let first = EffectModel::SaveSession { session: f.record };
            assert(r.effects =~= h.effects.push(first));
            assert(h.effects.push(first).drop_last() =~= h.effects);
            assert forall|i: int| 0 <= i < h.records.len() implies (#[trigger] h.records[i]).key()
                != s.key() by {
                assert((sessions + rest)[i].key() != (sessions + rest)[sessions.len() - 1].key());
            }
            lemma_put_over(h.records, s, f.record, rest);
        } else {
            assert(r.effects =~= h.effects);
            assert(h.records + more =~= r.records + rest);
        }
    }
}

proof fn lemma_repaired_agents_written(
    agents: Seq<AgentModel>,
    tasks: Seq<TaskModel>,
    sessions: Seq<SessionModel>,
    rest: Seq<AgentModel>,
    now: Timestamp,
)
    requires
        distinct(agents + rest),
    ensures
        stored_agents(agents + rest, repair_agents(agents, tasks, sessions, now).effects)
            == repair_agents(agents, tasks, sessions, now).records + rest,
        forall|i: int|
            0 <= i < repair_agents(agents, tasks, sessions, now).effects.len()
                ==> #[trigger] repair_agents(agents, tasks, sessions, now).effects[i] is SaveAgent,
    decreases agents.len(),
{
    let r = repair_agents(agents, tasks, sessions, now);
    if agents.len() == 0 {
        assert(agents + rest =~= rest);
        assert(r.records + rest =~= rest);
    } else {
        let head = agents.drop_last();
        let a = agents.last();
        let more = seq![a] + rest;
        assert(head + more =~= agents + rest);
        lemma_repaired_agents_written(head, tasks, sessions, more, now);
        lemma_repair_agents(head, tasks, sessions, now);
        let h = repair_agents(head, tasks, sessions, now);
        let f = fix_agent(a, tasks, sessions, now);
        if f.changed {
            let first = EffectModel::SaveAgent { agent: f.record };
            assert(r.effects =~= h.effects.push(first));
            assert(h.effects.push(first).drop_last() =~= h.effects);
            assert forall|i: int| 0 <= i < h.records.len() implies (#[trigger] h.records[i]).key()
                != a.key() by {
                assert((agents + rest)[i].key() != (agents + rest)[agents.len() - 1].key());
            }
            lemma_put_over(h.records, a, f.record, rest);
        } else {
            assert(r.effects =~= h.effects);
            assert(h.records + more =~= r.records + rest);
        }
    }
}

proof fn lemma_stored_in_turn(w: World, a: Seq<EffectModel>, b: Seq<EffectModel>)
    ensures
        stored_agents(w.agents, a + b) == stored_agents(stored_agents(w.agents, a), b),
        stored_tasks(w.tasks, a + b) == stored_tasks(stored_tasks(w.tasks, a), b),
        stored_decisions(w.decisions, a + b) == stored_decisions(
            stored_decisions(w.decisions, a),
            b,
        ),
        stored_sessions(w.sessions, a + b) == stored_sessions(stored_sessions(w.sessions, a), b),
    decreases b.len(),
{
    if b.len() == 0 {
        assert(a + b =~= a);
    } else {
        lemma_stored_in_turn(w, a, b.drop_last());
        assert((a + b).drop_last() =~= a + b.drop_last());
        assert((a + b).last() == b.last());
    }
}

proof fn lemma_foreign_effects(w: World, e: Seq<EffectModel>)
    ensures
        (forall|i: int| 0 <= i < e.len() ==> !(#[trigger] e[i] is SaveAgent)) ==> stored_agents(
            w.agents,
            e,
        ) == w.agents,
        (forall|i: int|
            0 <= i < e.len() ==> !(#[trigger] e[i] is InsertTask) && !(e[i] is UpdateTask))
            ==> stored_tasks(w.tasks, e) == w.tasks,
        (forall|i: int|
            0 <= i < e.len() ==> !(#[trigger] e[i] is InsertDecision) && !(
            e[i] is AcknowledgeDecision)) ==> stored_decisions(w.decisions, e) == w.decisions,
        (forall|i: int| 0 <= i < e.len() ==> !(#[trigger] e[i] is SaveSession)) ==> stored_sessions(
            w.sessions,
            e,
        ) == w.sessions,
    decreases e.len(),
{
    if e.len() > 0 {
        lemma_foreign_effects(w, e.drop_last());
        assert(e[e.len() - 1] == e.last());
        assert(forall|i: int| 0 <= i < e.len() - 1 ==> #[trigger] e.drop_last()[i] == e[i]);
    }
}

/// A repair writes down what it changes.
pub proof fn repair_is_written(w: World, requested_by: Seq<char>, now: Timestamp)
    requires
        w.tidy(),
    ensures
        written_down(w, w.repair(requested_by, now).0),
{
    broadcast use {record_stream_is_written, emit_is_written};

    lemma_written_down_start(w);
    if w.agent(requested_by) is Some {
        let t = repair_tasks(w.tasks, w.decisions, now);
        let s = repair_sessions(w.sessions, w.handles(), now);
        let a = repair_agents(w.agents, t.records, s.records, now);
        let none_t = Seq::<TaskModel>::empty();
        let none_s = Seq::<SessionModel>::empty();
        let none_a = Seq::<AgentModel>::empty();
        assert(w.tasks + none_t =~= w.tasks);
        assert(w.sessions + none_s =~= w.sessions);
        assert(w.agents + none_a =~= w.agents);
        lemma_repaired_tasks_written(w.tasks, w.decisions, none_t, now);
        lemma_repaired_sessions_written(w.sessions, w.handles(), none_s, now);
        lemma_repaired_agents_written(w.agents, t.records, s.records, none_a, now);
        assert(t.records + none_t =~= t.records);
        assert(s.records + none_s =~= s.records);
        assert(a.records + none_a =~= a.records);
        let r = w.repaired_tables(now);
        assert(since(w, r) =~= t.effects + s.effects + a.effects);
        assert(r.outbox.take(w.outbox.len() as int) =~= w.outbox);
        lemma_stored_in_turn(w, t.effects + s.effects, a.effects);
        lemma_stored_in_turn(w, t.effects, s.effects);
        lemma_foreign_effects(w, t.effects);
        let w1 = World { tasks: t.records, ..w };
        lemma_foreign_effects(w1, s.effects);
        let w2 = World { sessions: s.records, ..w1 };
        lemma_foreign_effects(w2, a.effects);
        assert(written_down(w, r));
    }
}

broadcast proof fn acknowledge_deliveries_is_written(
    base: World,
    w: World,
    agent: Seq<char>,
    session_id: Option<Seq<char>>,
    delivery_id: u64,
    now: Timestamp,
)
    requires
        written_down(base, w),
    ensures
        #![trigger w.acknowledge_deliveries(agent, session_id, delivery_id, now), written_down(base, w)]
        written_down(base, w.acknowledge_deliveries(agent, session_id, delivery_id, now).0),
{
    broadcast use {persist_agent_is_written, emit_is_written};

    let q = crate::bridge::queue_or_new(w.bridge_queues, agent);
    let upto = if delivery_id < q.next_delivery_id {
        delivery_id
    } else {
        q.next_delivery_id
    };
    let drained = World {
        bridge_queues: put(
            w.bridge_queues,
            crate::state::QueueModel { pending: crate::bridge::after_ack(q.pending, upto), ..q },
        ),
        ..w
    };
    other_parts_do_not_matter(base, w, drained);
}

broadcast proof fn touch_bridge_is_written(
    base: World,
    w: World,
    agent: Seq<char>,
    session_id: Seq<char>,
    now: Timestamp,
)
    requires
        written_down(base, w),
    ensures
        #![trigger w.touch_bridge_session(agent, session_id, now), written_down(base, w)]
        written_down(base, w.touch_bridge_session(agent, session_id, now).0),
{
    broadcast use {persist_agent_is_written};

}

broadcast proof fn presence_is_written(
    base: World,
    w: World,
    agent: Seq<char>,
    state: BridgeConnectionState,
    mode: Option<BridgeMode>,
    session_id: Option<Seq<char>>,
    now: Timestamp,
)
    requires
        written_down(base, w),
    ensures
        #![trigger w.update_bridge_presence(agent, state, mode, session_id, now), written_down(base, w)]
        written_down(base, w.update_bridge_presence(agent, state, mode, session_id, now).0),
{
    broadcast use {persist_agent_is_written, emit_is_written};

}

broadcast proof fn register_bridge_is_written(
    base: World,
    w: World,
    agent: Seq<char>,
    mode: BridgeMode,
    last_ack: Option<u64>,
    session_id: Seq<char>,
    now: Timestamp,
)
    requires
        written_down(base, w),
    ensures
        #![trigger w.register_bridge(agent, mode, last_ack, session_id, now), written_down(base, w)]
        written_down(base, w.register_bridge(agent, mode, last_ack, session_id, now).0),
{
    broadcast use {acknowledge_deliveries_is_written, presence_is_written};

    if let Some(a) = w.agent(agent) {
        let ready = w.ensure_bridge_queue(a);
        other_parts_do_not_matter(base, w, ready);
        let acked = match last_ack {
            Some(id) => ready.acknowledge_deliveries(agent, None, id, now),
            None => (ready, Ok(a)),
        };
        let linked = World {
            active_bridges: put(
                acked.0.active_bridges,
                crate::state::LinkModel { agent_name: agent, session_id },
            ),
            ..acked.0
        };
        other_parts_do_not_matter(base, acked.0, linked);
    }
}

broadcast proof fn disconnect_is_written(
    base: World,
    w: World,
    agent: Seq<char>,
    session_id: Seq<char>,
    now: Timestamp,
)
    requires
        written_down(base, w),
    ensures
        #![trigger w.disconnect_bridge(agent, session_id, now), written_down(base, w)]
        written_down(base, w.disconnect_bridge(agent, session_id, now)),
{
    broadcast use {presence_is_written};

    let left = World {
        active_bridges: crate::table::without(w.active_bridges, agent),
        ..w
    };
    other_parts_do_not_matter(base, w, left);
}

/// What a message of a bridge changes is written down.
pub proof fn bridge_message_is_written(
    w: World,
    c: ConnectionModel,
    message: BridgeClientMessage,
    fresh: Seq<char>,
    now: Timestamp,
)
    ensures
        written_down(w, w.bridge_message(c, message, fresh, now).0),
        written_down(w, w.close_connection(c, now)),
{
    broadcast use {
        register_bridge_is_written,
        disconnect_is_written,
        touch_bridge_is_written,
        acknowledge_deliveries_is_written,
    };

    lemma_written_down_start(w);
    assert(written_down(w, w.close_connection(c, now)));
}

proof fn agent_request_is_written(
    w: World,
    request: ControlRequest,
    facts: RequestFacts,
    fresh: Seq<char>,
    now: Timestamp,
)
    requires
        matter(request) is Agent,
        written_down(w, w),
    ensures
        written_down(w, w.dispatch(request, facts, fresh, now).0),
{
    broadcast use {
        register_is_written,
        touch_is_written,
        begin_bootstrap_is_written,
        mark_ready_is_written,
        set_pane_is_written,
        set_server_is_written,
        reset_thread_is_written,
        recover_is_written,
    };

}

proof fn task_request_is_written(
    w: World,
    request: ControlRequest,
    facts: RequestFacts,
    fresh: Seq<char>,
    now: Timestamp,
)
    requires
        matter(request) is Task,
        written_down(w, w),
    ensures
        written_down(w, w.dispatch(request, facts, fresh, now).0),
{
    broadcast use {
        create_task_is_written,
        begin_visible_is_written,
        transition_task_is_written,
        cancel_is_written,
        retry_is_written,
        report_is_written,
        analyze_is_written,
    };

}

proof fn decision_request_is_written(
    w: World,
    request: ControlRequest,
    facts: RequestFacts,
    fresh: Seq<char>,
    now: Timestamp,
)
    requires
        matter(request) is Decision,
        written_down(w, w),
    ensures
        written_down(w, w.dispatch(request, facts, fresh, now).0),
{
    broadcast use {
        submit_visible_is_written,
        resolve_is_written,
        decide_is_written,
        acknowledge_is_written,
        close_is_written,
    };

}

proof fn round_request_is_written(
    w: World,
    request: ControlRequest,
    facts: RequestFacts,
    fresh: Seq<char>,
    now: Timestamp,
)
    requires
        matter(request) is Round,
        written_down(w, w),
    ensures
        written_down(w, w.dispatch(request, facts, fresh, now).0),
{
    broadcast use {start_ad_hoc_is_written, begin_task_round_is_written};

}

/// What a request changes is written down: a database that held the records before
/// it holds the records after it, once the effects are performed.
pub proof fn request_is_written(
    w: World,
    request: ControlRequest,
    facts: RequestFacts,
    fresh: Seq<char>,
    now: Timestamp,
)
    requires
        w.tidy(),
    ensures
        written_down(w, w.dispatch(request, facts, fresh, now).0),
{
    lemma_written_down_start(w);
    match matter(request) {
        Matter::Agent => agent_request_is_written(w, request, facts, fresh, now),
        Matter::Task => task_request_is_written(w, request, facts, fresh, now),
        Matter::Decision => decision_request_is_written(w, request, facts, fresh, now),
        Matter::Round => round_request_is_written(w, request, facts, fresh, now),
        Matter::Upkeep => {
            broadcast use begin_managed_is_written;

            match request {
                ControlRequest::RepairRuntimeState { requested_by } => {
                    repair_is_written(w, requested_by@, now);
                },
                ControlRequest::StopAgentSession { agent } => {
                    other_parts_do_not_matter(w, w, w.take_session_to_stop(agent@).0);
                },
                ControlRequest::StopManagedSessions => {
                    other_parts_do_not_matter(w, w, w.take_managed_sessions().0);
                },
                _ => {},
            }
        },
        Matter::Look => {
            broadcast use emit_is_written;

        },
    }
}

/// What the course and the end of a round change is written down.
pub proof fn round_is_written(
    w: World,
    name: Seq<char>,
    id: Seq<char>,
    message: Seq<char>,
    kept_thread: Option<Seq<char>>,
    session: SessionModel,
    event: BackendEvent,
    finished: BackendFinished,
    round: RoundModel,
    start: RoundStartModel,
    payload: Option<PayloadModel>,
    now: Timestamp,
)
    ensures
        written_down(w, w.start_ad_hoc_round(name, now).0),
        written_down(w, w.start_round_session(session, now).0),
        written_down(w, w.session_event(id, name, event, now)),
        written_down(w, w.finish_round_session(id, name, finished, now).0),
        written_down(w, w.finish_ad_hoc_round(name, round, kept_thread, message, now).0),
        written_down(w, w.fail_ad_hoc_round(name, message, now).0),
        written_down(w, w.fail_task_round(start, message, now).0),
        written_down(w, w.finish_task_round(start, round, payload, id, now).0),
{
    broadcast use {
        start_ad_hoc_is_written,
        start_round_is_written,
        session_event_is_written,
        finish_round_is_written,
        finish_ad_hoc_is_written,
        fail_ad_hoc_is_written,
        fail_task_round_is_written,
        finish_task_round_is_written,
    };

    lemma_written_down_start(w);
}

broadcast proof fn reset_server_is_written(
    base: World,
    w: World,
    agent: Seq<char>,
    reason: Seq<char>,
    now: Timestamp,
)
    requires
        written_down(base, w),
    ensures
        #![trigger w.reset_app_server(agent, reason, now), written_down(base, w)]
        written_down(base, w.reset_app_server(agent, reason, now).0),
{
    broadcast use {persist_agent_is_written, emit_is_written};

}

/// What the start, the report and the end of a managed app server change is written down.
pub proof fn managed_is_written(
    w: World,
    name: Seq<char>,
    id: Seq<char>,
    url: Seq<char>,
    message: Seq<char>,
    thread_id: Seq<char>,
    session: SessionModel,
    lines: Seq<Seq<char>>,
    success: bool,
    stopped: bool,
    now: Timestamp,
)
    ensures
        written_down(w, w.begin_managed(name, now).0),
        written_down(w, w.managed_started(session)),
        written_down(w, w.set_app_server(name, Some(url), Some(AppServerOwner::Daemon), now).0),
        written_down(w, w.managed_failed(name, message, now).0),
        written_down(w, w.managed_reported(name, id, url, message, thread_id, now).0),
        written_down(w, w.managed_finished(name, id, lines, success, stopped, message, now)),
{
    broadcast use {
        begin_managed_is_written,
        upsert_session_is_written,
        set_server_is_written,
        reset_server_is_written,
        mark_ready_is_written,
        finalize_session_is_written,
        emit_is_written,
    };

    lemma_written_down_start(w);
    let kept = w.upsert_session(session, "session_started"@);
    other_parts_do_not_matter(w, kept, w.managed_started(session));
    let left = World {
        active_managed_sessions: without(w.active_managed_sessions, name),
        ..w
    };
    other_parts_do_not_matter(w, w, left);
}

proof fn lemma_mirrored_tasks_written(
    tasks: Seq<TaskModel>,
    decisions: Seq<DecisionModel>,
    rest: Seq<TaskModel>,
)
    requires
        distinct(tasks + rest),
    ensures
        stored_tasks(tasks + rest, mirror_effects(tasks, decisions)) == mirrored_tasks(
            tasks,
            decisions,
        ) + rest,
        forall|i: int|
            0 <= i < mirror_effects(tasks, decisions).len() ==> #[trigger] mirror_effects(
                tasks,
                decisions,
            )[i] is UpdateTask,
    decreases tasks.len(),
{
    let effects = mirror_effects(tasks, decisions);
    let records = mirrored_tasks(tasks, decisions);
    if tasks.len() == 0 {
        assert(tasks + rest =~= rest);
        assert(records + rest =~= rest);
    } else {
        let head = tasks.drop_last();
        let t = tasks.last();
        let more = seq![t] + rest;
        assert(head + more =~= tasks + rest);
        lemma_mirrored_tasks_written(head, decisions, more);
        let before = mirror_effects(head, decisions);
        let done = mirrored_tasks(head, decisions);
        let latest = latest_decision(decisions, t.task_id);
        let renewed = with_decision(t, latest);
        assert(records =~= done.push(renewed));
        if mirrors_decision(t, latest) {
            assert(renewed == t);
            assert(done + more =~= records + rest);
        } else {
            assert(effects.drop_last() =~= before);
            assert forall|i: int| 0 <= i < done.len() implies (#[trigger] done[i]).key()
                != t.key() by {
                assert((tasks + rest)[i].key() != (tasks + rest)[tasks.len() - 1].key());
            }
            lemma_put_over(done, t, renewed, rest);
        }
    }
}

proof fn lemma_normal_agents_written(
    w: World,
    agents: Seq<AgentModel>,
    rest: Seq<AgentModel>,
    now: Timestamp,
)
    requires
        distinct(agents + rest),
    ensures
        stored_agents(agents + rest, normal_effects(w, agents, now)) == normal_agents(
            w,
            agents,
            now,
        ) + rest,
        forall|i: int|
            0 <= i < normal_effects(w, agents, now).len() ==> #[trigger] normal_effects(
                w,
                agents,
                now,
            )[i] is SaveAgent,
    decreases agents.len(),
{
    let effects = normal_effects(w, agents, now);
    let records = normal_agents(w, agents, now);
    if agents.len() == 0 {
        assert(agents + rest =~= rest);
        assert(records + rest =~= rest);
    } else {
        let head = agents.drop_last();
        let a = agents.last();
        let more = seq![a] + rest;
        assert(head + more =~= agents + rest);
        lemma_normal_agents_written(w, head, more, now);
        let before = normal_effects(w, head, now);
        let done = normal_agents(w, head, now);
        assert(records =~= done.push(normalized(w, a, now)));
        match normal_agent(w, a, now) {
            None => {
                assert(done + more =~= records + rest);
            },
            Some(n) => {
                assert(effects.drop_last() =~= before);
                assert forall|i: int| 0 <= i < done.len() implies (#[trigger] done[i]).key()
                    != a.key() by {
                    assert((agents + rest)[i].key() != (agents + rest)[agents.len() - 1].key());
                }
                lemma_put_over(done, a, n, rest);
            },
        }
    }
}

broadcast proof fn recover_session_is_written(
    base: World,
    w: World,
    session: SessionModel,
    now: Timestamp,
)
    requires
        written_down(base, w),
    ensures
        #![trigger w.recover_session(session, now), written_down(base, w)]
        written_down(base, w.recover_session(session, now).0),
{
    broadcast use {
        finalize_session_is_written,
        reset_server_is_written,
        persist_agent_is_written,
    };

}

proof fn lemma_recover_all_is_written(
    base: World,
    w: World,
    stale: Seq<SessionModel>,
    now: Timestamp,
)
    requires
        written_down(base, w),
    ensures
        written_down(base, w.recover_all(stale, now).0),
    decreases stale.len(),
{
    broadcast use recover_session_is_written;

    if stale.len() > 0 {
        let first = w.recover_session(stale[0], now);
        assert(written_down(base, first.0));
        lemma_recover_all_is_written(base, first.0, stale.skip(1), now);
    }
}

/// What the daemon changes at its start is written down.
pub proof fn start_is_written(
    w: World,
    name: Seq<char>,
    main_cwd: Seq<char>,
    prompt: Option<Seq<char>>,
    pid: u32,
    now: Timestamp,
)
    requires
        w.tidy(),
    ensures
        written_down(w, w.ensure_main_agent(main_cwd, prompt, now)),
        written_down(w, w.sync_prompt(name, main_cwd, prompt)),
        written_down(w, w.sync_task_decisions()),
        written_down(w, w.recover_stale_sessions(now).0),
        written_down(w, w.normalize_agents(now)),
        written_down(w, w.recover_pane(name, pid, now).0),
{
    broadcast use {set_pane_is_written, emit_is_written};

    lemma_written_down_start(w);
    lemma_recover_all_is_written(w, w, running_sessions(w.sessions), now);
    assert(written_down(w, w.ensure_main_agent(main_cwd, prompt, now))) by {
        if w.ensure_main_agent(main_cwd, prompt, now) != w {
            let base = match w.agent("main"@) {
                Some(a) => a,
                None => fresh_agent(
                    "main"@,
                    AgentRole::Main,
                    Some("hackman"@),
                    main_cwd,
                    prompt,
                    now,
                ),
            };
            let placed = if base.cwd == "."@ {
                AgentModel { cwd: main_cwd, ..base }
            } else {
                base
            };
            let prompted = if placed.prompt_path is None && prompt is Some {
                AgentModel { prompt_path: prompt, ..placed }
            } else {
                placed
            };
            let stored = w.emit(EffectModel::SaveAgent { agent: prompted });
            let filed = World { agents: put(stored.agents, prompted), ..stored };
            lemma_save_agent(w, w, prompted);
            other_parts_do_not_matter(w, filed, filed.ensure_bridge_queue(prompted));
        }
    }
    assert(written_down(w, w.sync_prompt(name, main_cwd, prompt))) by {
        if let Some(a) = w.agent(name) {
            lemma_save_agent(
                w,
                w,
                AgentModel { cwd: startup_cwd(a, main_cwd), prompt_path: prompt, ..a },
            );
        }
    }
    assert(written_down(w, w.sync_task_decisions())) by {
        let effects = mirror_effects(w.tasks, w.decisions);
        let none = Seq::<TaskModel>::empty();
        assert(w.tasks + none =~= w.tasks);
        lemma_mirrored_tasks_written(w.tasks, w.decisions, none);
        assert(mirrored_tasks(w.tasks, w.decisions) + none =~= mirrored_tasks(
            w.tasks,
            w.decisions,
        ));
        assert(since(w, w.sync_task_decisions()) =~= effects);
        assert(w.sync_task_decisions().outbox.take(w.outbox.len() as int) =~= w.outbox);
        lemma_foreign_effects(w, effects);
    }
    assert(written_down(w, w.normalize_agents(now))) by {
        let effects = normal_effects(w, w.agents, now);
        let none = Seq::<AgentModel>::empty();
        assert(w.agents + none =~= w.agents);
        lemma_normal_agents_written(w, w.agents, none, now);
        assert(normal_agents(w, w.agents, now) + none =~= normal_agents(w, w.agents, now));
        assert(since(w, w.normalize_agents(now)) =~= effects);
        assert(w.normalize_agents(now).outbox.take(w.outbox.len() as int) =~= w.outbox);
        lemma_foreign_effects(w, effects);
    }
}

/// The state whose records the database holds before the effects of the happening are
/// performed: where agents are removed, their rows and those of their tasks have been
/// deleted.
pub open spec fn rows_before(w: World, h: Happening) -> World {
    match h {
        Happening::AgentRemoved { plan, .. } => w.purge(plan),
        Happening::DemoRemoved { plan, .. } => w.purge(plan),
        _ => w,
    }
}

proof fn lemma_nothing_goes<R: Removable>(s: Seq<R>)
    requires
        forall|i: int| 0 <= i < s.len() ==> (#[trigger] s[i]).stays(Seq::empty(), Seq::empty()),
    ensures
        kept(s, Seq::empty(), Seq::empty()) == s,
    decreases s.len(),
{
    reveal(Seq::filter);
    if s.len() > 0 {
        let head = s.drop_last();
        assert forall|i: int| 0 <= i < head.len() implies (#[trigger] head[i]).stays(
            Seq::empty(),
            Seq::empty(),
        ) by {
            assert(head[i] == s[i]);
        }
        lemma_nothing_goes(head);
        assert(s[s.len() - 1].stays(Seq::empty(), Seq::empty()));
        assert(kept(s, Seq::empty(), Seq::empty()) =~= head.push(s.last()));
    }
    assert(kept(s, Seq::empty(), Seq::empty()) =~= s);
}

/// Where the database held the records and the planned rows were deleted from it, it
/// holds the records that a removal or a cleanup leaves in memory, once the effects
/// since are performed.
pub proof fn removal_is_written(
    w: World,
    agent: Seq<char>,
    requested_by: Seq<char>,
    plan: PlanModel,
    rows: DeletedRows,
    now: Timestamp,
)
    ensures
        rows.agents > 0 ==> written_down(w.purge(plan), w.apply_removal(agent, plan, rows).0),
        written_down(w.purge(plan), w.apply_cleanup(requested_by, plan, rows, now).0),
{
    broadcast use {record_stream_is_written, emit_is_written};

    let left = w.purge(plan);
    lemma_written_down_start(left);
    other_parts_do_not_matter(
        left,
        left,
        World {
            active_bridges: without(left.active_bridges, agent),
            bridge_queues: without(left.bridge_queues, agent),
            ..left
        },
    );
    if plan.agents.len() == 0 && plan.task_ids.len() == 0 {
        assert(plan.agents =~= Seq::empty() && plan.task_ids =~= Seq::empty());
        lemma_nothing_goes(w.agents);
        lemma_nothing_goes(w.tasks);
        lemma_nothing_goes(w.decisions);
        lemma_nothing_goes(w.sessions);
        other_parts_do_not_matter(left, left, w);
    }
}

/// A plan names every task that goes with its agents: those that stay in memory are
/// those whose rows are not deleted by their identifiers.
pub proof fn plan_names_the_tasks_that_go(w: World, agent: Seq<char>, requested_by: Seq<char>)
    ensures
        w.plan_removal(agent) matches Ok(plan) ==> forall|i: int|
            0 <= i < w.tasks.len() ==> ((#[trigger] w.tasks[i]).stays(plan.agents, plan.task_ids)
                <==> !plan.task_ids.contains(w.tasks[i].task_id)),
        w.plan_cleanup(requested_by) matches Ok(plan) ==> forall|i: int|
            0 <= i < w.tasks.len() ==> ((#[trigger] w.tasks[i]).stays(plan.agents, plan.task_ids)
                <==> !plan.task_ids.contains(w.tasks[i].task_id)),
{
    if let Ok(plan) = w.plan_removal(agent) {
        lemma_tasks_named(w.tasks, plan.agents);
    }
    if let Ok(plan) = w.plan_cleanup(requested_by) {
        lemma_tasks_named(w.tasks, plan.agents);
    }
}

proof fn lemma_tasks_named(tasks: Seq<TaskModel>, agents: Seq<Seq<char>>)
    ensures
        forall|i: int|
            0 <= i < tasks.len() && (agents.contains((#[trigger] tasks[i]).from_agent)
                || agents.contains(tasks[i].to_agent)) ==> tasks_of(
                tasks,
                agents,
                false,
            ).contains(tasks[i].task_id),
    decreases tasks.len(),
{
    if tasks.len() > 0 {
        let head = tasks.drop_last();
        let rest = tasks_of(head, agents, false);
        let all = tasks_of(tasks, agents, false);
        lemma_tasks_named(head, agents);
        assert forall|i: int|
            0 <= i < tasks.len() && (agents.contains((#[trigger] tasks[i]).from_agent)
                || agents.contains(tasks[i].to_agent)) implies all.contains(tasks[i].task_id) by {
            if i < head.len() {
                assert(head[i] == tasks[i]);
                let k = rest.index_of(tasks[i].task_id);
                assert(rest.contains(tasks[i].task_id));
                assert(all[k] == rest[k]);
            } else {
                assert(all.last() == tasks[i].task_id);
                assert(all[all.len() - 1] == tasks[i].task_id);
            }
        }
    }
}

/// Whatever happens is written down: the records that the database held, without the
/// rows that were deleted for it, are those in memory once the effects since are
/// performed. Left out are the removal of an agent of which the database had no row,
/// which changes nothing in memory, and the taking of the effects themselves.
pub proof fn happening_is_written(w: World, h: Happening, now: Timestamp)
    requires
        w.tidy(),
        !(h is EffectsTaken),
        (h matches Happening::AgentRemoved { rows, .. } ==> rows.agents > 0),
    ensures
        written_down(rows_before(w, h), w.after(h, now)),
{
    lemma_written_down_start(w);
    match h {
        Happening::Request { request, facts, fresh } => {
            request_is_written(w, request, facts, fresh, now);
        },
        Happening::BridgeSpoke { connection, message, fresh } => {
            bridge_message_is_written(w, connection, message, fresh, now);
        },
        Happening::BridgeLeft { connection } => {
            bridge_message_is_written(w, connection, BridgeClientMessage::Ping, ""@, now);
        },
        Happening::EventStored { .. } => {
            other_parts_do_not_matter(w, w, w.after(h, now));
        },
        Happening::AgentRemoved { agent, plan, rows } => {
            removal_is_written(w, agent, ""@, plan, rows, now);
        },
        Happening::DemoRemoved { requested_by, plan, rows } => {
            removal_is_written(w, ""@, requested_by, plan, rows, now);
        },
        Happening::TaskDrafted { .. } => {
            broadcast use create_task_is_written;

        },
        Happening::ServerStarted { .. }
        | Happening::ServerListens { .. }
        | Happening::ServerReported { .. }
        | Happening::ServerFailed { .. }
        | Happening::ServerReset { .. }
        | Happening::ServerEnded { .. } => {
            lemma_server_is_written(w, h, now);
        },
        Happening::MainFound { main_cwd, prompt } => {
            start_is_written(w, ""@, main_cwd, prompt, 0, now);
        },
        Happening::PromptFound { agent, main_cwd, prompt } => {
            start_is_written(w, agent, main_cwd, prompt, 0, now);
        },
        Happening::PaneMissed { agent, pid } => {
            start_is_written(w, agent, ""@, None, pid, now);
        },
        Happening::MirrorsRenewed
        | Happening::SessionsRecovered
        | Happening::AgentsNormalized => {
            start_is_written(w, ""@, ""@, None, 0, now);
        },
        _ => {
            lemma_round_is_written(w, h, now);
        },
    }
}

proof fn lemma_server_is_written(w: World, h: Happening, now: Timestamp)
    requires
        h is ServerStarted || h is ServerListens || h is ServerReported || h is ServerFailed
            || h is ServerReset || h is ServerEnded,
    ensures
        written_down(w, w.after(h, now)),
{
    let session = new_session(""@, ""@, SessionMode::AppServer, None, None, now);
    match h {
        Happening::ServerStarted { session } => {
            managed_is_written(
                w,
                ""@,
                ""@,
                ""@,
                ""@,
                ""@,
                session,
                Seq::empty(),
                true,
                true,
                now,
            );
        },
        Happening::ServerListens { agent, url } => {
            managed_is_written(
                w,
                agent,
                ""@,
                url,
                ""@,
                ""@,
                session,
                Seq::empty(),
                true,
                true,
                now,
            );
        },
        Happening::ServerReported { agent, session_id, url, final_message, thread_id } => {
            managed_is_written(
                w,
                agent,
                session_id,
                url,
                final_message,
                thread_id,
                session,
                Seq::empty(),
                true,
                true,
                now,
            );
        },
        Happening::ServerFailed { agent, reason } => {
            managed_is_written(
                w,
                agent,
                ""@,
                ""@,
                reason,
                ""@,
                session,
                Seq::empty(),
                true,
                true,
                now,
            );
        },
        Happening::ServerEnded {
            agent,
            session_id,
            lines,
            success,
            stopped,
            status_label,
        } => {
            managed_is_written(
                w,
                agent,
                session_id,
                ""@,
                status_label,
                ""@,
                session,
                lines,
                success,
                stopped,
                now,
            );
        },
        _ => {
            broadcast use reset_server_is_written;

            lemma_written_down_start(w);
        },
    }
}

proof fn lemma_round_is_written(w: World, h: Happening, now: Timestamp)
    requires
        h is AdHocBegun || h is RoundStarted || h is RoundSpoke || h is RoundEnded
            || h is AdHocFinished || h is AdHocFailed || h is TaskRoundFinished
            || h is TaskRoundFailed || h is StopAsked || h is PaneStopped,
    ensures
        written_down(w, w.after(h, now)),
{
    broadcast use {
        start_ad_hoc_is_written,
        start_round_is_written,
        session_event_is_written,
        finish_round_is_written,
        finish_ad_hoc_is_written,
        fail_ad_hoc_is_written,
        fail_task_round_is_written,
        finish_task_round_is_written,
        record_stream_is_written,
        set_pane_is_written,
        emit_is_written,
    };

    lemma_written_down_start(w);
}

} // verus!
