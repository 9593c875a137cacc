//! What every operation keeps: each record is filed once, the mailboxes are in
//! order, and the recent history stays short.

use vstd::prelude::*;

use crate::agents::fresh_agent;
use crate::backend::{BackendEvent, BackendFinished};
use crate::bridge::{
    after_ack, enqueued, next_id, queue_in_order, queue_or_new, ConnectionModel,
};
use crate::control::ControlRequest;
use crate::course::Happening;
use crate::dispatch::{matter, no_rows, Matter, RequestFacts};
use crate::models::{
    AgentModel, AgentRole, AppServerOwner, BridgeClientMessage, BridgeConnectionState,
    BridgeDeliveryKind, BridgeMode, CodexSessionStatus, DecisionModel, DeliveryModel, DraftModel,
    PayloadModel, RoundModel, RuntimeEventModel, SessionMode, SessionModel, StreamModel, TaskModel,
    TaskState, VisiblePaneKind,
};
use crate::removal::{kept, DeletedRows, PlanModel, Removable};
use crate::repair::{
    fix_agent, fix_session, fix_task, repair_agents, repair_sessions, repair_tasks, Handles,
};
use crate::rounds::RoundStartModel;
use crate::sessions::new_session;
use crate::startup::{loaded, mirrored_tasks, normal_agents, queues_for, running_sessions};
use crate::state::{EffectModel, QueueModel, World};
use crate::table::{
    distinct, filed, filed_all, lemma_place, lemma_put_distinct, place, put, without, Keyed,
};
use crate::time::Timestamp;

verus! {

/// The mailboxes are all in order.
pub open spec fn queues_in_order(queues: Seq<QueueModel>) -> bool {
    forall|i: int| 0 <= i < queues.len() ==> queue_in_order(#[trigger] queues[i])
}

impl World {
    /// Each record is filed once, each mailbox is in order, and no more of the
    /// recent history is kept than the limit allows.
    pub open spec fn tidy(self) -> bool {
        &&& distinct(self.agents)
        &&& distinct(self.tasks)
        &&& distinct(self.decisions)
        &&& distinct(self.sessions)
        &&& distinct(self.active_sessions)
        &&& distinct(self.active_managed_sessions)
        &&& distinct(self.active_bridges)
        &&& distinct(self.bridge_queues)
        &&& queues_in_order(self.bridge_queues)
        &&& self.recent_streams.len() <= 500
        &&& self.recent_runtime_events.len() <= 500
    }
}

broadcast proof fn put_keeps_distinct<R: Keyed>(s: Seq<R>, r: R)
    requires
        distinct(s),
    ensures
        distinct(#[trigger] put(s, r)),
{
    lemma_put_distinct(s, r);
}

broadcast proof fn without_keeps_distinct<R: Keyed>(s: Seq<R>, k: Seq<char>)
    requires
        distinct(s),
    ensures
        distinct(#[trigger] without(s, k)),
{
    lemma_place(s, k);
    let t = without(s, k);
    assert forall|i: int, j: int| 0 <= i < j < t.len() implies (#[trigger] t[i]).key() != (
    #[trigger] t[j]).key() by {
        let p = place(s, k);
        let i2 = if filed(s, k) && i >= p {
            i + 1
        } else {
            i
        };
        let j2 = if filed(s, k) && j >= p {
            j + 1
        } else {
            j
        };
        assert(t[i] == s[i2]);
        assert(t[j] == s[j2]);
    }
}

pub proof fn lemma_kept_distinct<R: Keyed + Removable>(
    s: Seq<R>,
    agents: Seq<Seq<char>>,
    task_ids: Seq<Seq<char>>,
)
    requires
        distinct(s),
    ensures
        distinct(kept(s, agents, task_ids)),
        kept(s, agents, task_ids).len() <= s.len(),
        forall|i: int|
            0 <= i < kept(s, agents, task_ids).len() ==> s.contains(
                #[trigger] kept(s, agents, task_ids)[i],
            ),
    decreases s.len(),
{
    reveal(Seq::filter);
    if s.len() > 0 {
        let head = s.drop_last();
        let r = s.last();
        assert forall|i: int, j: int| 0 <= i < j < head.len() implies (#[trigger] head[i]).key()
            != (#[trigger] head[j]).key() by {
            assert(s[i].key() != s[j].key());
        }
        lemma_kept_distinct(head, agents, task_ids);
        let t = kept(s, agents, task_ids);
        let h = kept(head, agents, task_ids);
        assert forall|i: int| 0 <= i < t.len() implies s.contains(#[trigger] t[i]) by {
            if i < h.len() {
                assert(t[i] == h[i]);
                let k = head.index_of(h[i]);
                assert(head.contains(h[i]));
                assert(s[k] == h[i]);
            } else {
                assert(s[s.len() - 1] == t[i]);
            }
        }
        assert forall|i: int, j: int| 0 <= i < j < t.len() implies (#[trigger] t[i]).key() != (
        #[trigger] t[j]).key() by {
            if j < h.len() {
                assert(h[i].key() != h[j].key());
            } else {
                assert(t[i] == h[i]);
                let k = head.index_of(h[i]);
                assert(head.contains(h[i]));
                assert(s[k].key() != s[s.len() - 1].key());
            }
        }
    }
}

proof fn lemma_kept_short<R: Removable>(
    s: Seq<R>,
    agents: Seq<Seq<char>>,
    task_ids: Seq<Seq<char>>,
)
    ensures
        kept(s, agents, task_ids).len() <= s.len(),
    decreases s.len(),
{
    reveal(Seq::filter);
    if s.len() > 0 {
        lemma_kept_short(s.drop_last(), agents, task_ids);
    }
}

/// Acknowledging drops exactly the deliveries up to the number; the others stay in order.
pub proof fn acknowledgement_drops_the_seen(pending: Seq<DeliveryModel>, upto: u64)
    ensures
        forall|d: DeliveryModel|
            #![trigger after_ack(pending, upto).contains(d)]
            after_ack(pending, upto).contains(d) <==> pending.contains(d) && d.delivery_id > upto,
        forall|i: int|
            0 <= i < after_ack(pending, upto).len() ==> (#[trigger] after_ack(
                pending,
                upto,
            )[i]).delivery_id > upto,
        after_ack(pending, upto).len() <= pending.len(),
        (forall|i: int, j: int|
            0 <= i < j < pending.len() ==> (#[trigger] pending[i]).delivery_id < (
            #[trigger] pending[j]).delivery_id) ==> (forall|i: int, j: int|
            0 <= i < j < after_ack(pending, upto).len() ==> (#[trigger] after_ack(
                pending,
                upto,
            )[i]).delivery_id < (#[trigger] after_ack(pending, upto)[j]).delivery_id),
    decreases pending.len(),
{
    let t = after_ack(pending, upto);
    if pending.len() > 0 {
        let head = pending.drop_last();
        let last = pending.last();
        let h = after_ack(head, upto);
        acknowledgement_drops_the_seen(head, upto);
        assert forall|d: DeliveryModel|
            #![trigger t.contains(d)]
            t.contains(d) <==> pending.contains(d) && d.delivery_id > upto by {
            if t.contains(d) {
                let i = t.index_of(d);
                assert(t[i] == d);
                if i < h.len() {
                    assert(h[i] == d);
                    assert(h.contains(d));
                    let k = head.index_of(d);
                    assert(pending[k] == d);
                } else {
                    assert(pending[pending.len() - 1] == d);
                }
            }
            if pending.contains(d) && d.delivery_id > upto {
                let k = pending.index_of(d);
                assert(pending[k] == d);
                if k < head.len() {
                    assert(head[k] == d);
                    assert(head.contains(d));
                    assert(h.contains(d));
                    let i = h.index_of(d);
                    assert(t[i] == d);
                } else {
                    assert(t[t.len() - 1] == d);
                }
            }
        }
        if forall|i: int, j: int|
            0 <= i < j < pending.len() ==> (#[trigger] pending[i]).delivery_id < (
            #[trigger] pending[j]).delivery_id {
            assert forall|i: int, j: int| 0 <= i < j < head.len() implies (
            #[trigger] head[i]).delivery_id < (#[trigger] head[j]).delivery_id by {
                assert(pending[i].delivery_id < pending[j].delivery_id);
            }
            assert forall|i: int, j: int| 0 <= i < j < t.len() implies (
            #[trigger] t[i]).delivery_id < (#[trigger] t[j]).delivery_id by {
                if j < h.len() {
                    assert(h[i].delivery_id < h[j].delivery_id);
                } else {
                    assert(t[i] == h[i]);
                    assert(h.contains(h[i]));
                    assert(head.contains(h[i]));
                    let k = head.index_of(h[i]);
                    assert(pending[k].delivery_id < pending[pending.len() - 1].delivery_id);
                }
            }
        }
    } else {
        assert(t =~= pending);
    }
}

proof fn lemma_put_queue(queues: Seq<QueueModel>, q: QueueModel)
    requires
        queues_in_order(queues),
        queue_in_order(q),
    ensures
        queues_in_order(put(queues, q)),
{
    lemma_place(queues, q.key());
    let t = put(queues, q);
    assert forall|i: int| 0 <= i < t.len() implies queue_in_order(#[trigger] t[i]) by {
        if i < queues.len() && t[i] != q {
            assert(t[i] == queues[i]);
        }
    }
}

proof fn lemma_without_queue(queues: Seq<QueueModel>, k: Seq<char>)
    requires
        queues_in_order(queues),
    ensures
        queues_in_order(without(queues, k)),
{
    lemma_place(queues, k);
    let t = without(queues, k);
    assert forall|i: int| 0 <= i < t.len() implies queue_in_order(#[trigger] t[i]) by {
        let p = place(queues, k);
        if filed(queues, k) && i >= p {
            assert(t[i] == queues[i + 1]);
        } else {
            assert(t[i] == queues[i]);
        }
    }
}

proof fn lemma_queue_or_new(queues: Seq<QueueModel>, agent: Seq<char>)
    requires
        queues_in_order(queues),
    ensures
        queue_in_order(queue_or_new(queues, agent)),
        queue_or_new(queues, agent).agent_name == agent,
{
    lemma_place(queues, agent);
}

/// A delivery that is put into a mailbox that is in order gets a number above all
/// others there, unless the numbers are used up, and the mailbox stays in order.
pub proof fn enqueuing_keeps_the_order(q: QueueModel, d: DeliveryModel)
    requires
        queue_in_order(q),
        d.delivery_id == next_id(q),
    ensures
        queue_in_order(
            QueueModel {
                next_delivery_id: next_id(q),
                pending: enqueued(q.pending, d),
                ..q
            },
        ),
        enqueued(q.pending, d).last() == d,
        q.next_delivery_id < u64::MAX ==> next_id(q) == q.next_delivery_id + 1 && enqueued(
            q.pending,
            d,
        ) == q.pending.push(d),
{
    let t = enqueued(q.pending, d);
    let n = q.pending.len() as int;
    if n > 0 {
        assert(q.pending[n - 1].delivery_id <= q.next_delivery_id);
    }
    assert forall|i: int, j: int| 0 <= i < j < t.len() implies (#[trigger] t[i]).delivery_id < (
    #[trigger] t[j]).delivery_id by {
        if n > 0 && q.pending.last().delivery_id == d.delivery_id {
            if j < n - 1 {
                assert(t[i] == q.pending[i] && t[j] == q.pending[j]);
            } else {
                assert(q.pending[i].delivery_id < q.pending[n - 1].delivery_id);
            }
        } else if j < n {
            assert(t[i] == q.pending[i] && t[j] == q.pending[j]);
        } else {
            assert(t[i] == q.pending[i]);
            if i < n - 1 {
                assert(q.pending[i].delivery_id < q.pending[n - 1].delivery_id);
            }
        }
    }
    assert forall|i: int| 0 <= i < t.len() implies (#[trigger] t[i]).delivery_id <= next_id(q) by {
        if i < n && t[i] == q.pending[i] {
            assert(q.pending[i].delivery_id <= q.next_delivery_id);
        }
    }
}

broadcast proof fn queue_delivery_keeps(
    w: World,
    recipient: Seq<char>,
    kind: BridgeDeliveryKind,
    task: Option<TaskModel>,
    decision: Option<DecisionModel>,
    reason: Option<Seq<char>>,
    now: Timestamp,
)
    requires
        w.tidy(),
    ensures
        (#[trigger] w.queue_bridge_delivery(recipient, kind, task, decision, reason, now)).tidy(),
{
    broadcast use put_keeps_distinct;

    let q = queue_or_new(w.bridge_queues, recipient);
    lemma_queue_or_new(w.bridge_queues, recipient);
    let d = DeliveryModel {
        delivery_id: next_id(q),
        agent: recipient,
        kind,
        task,
        decision,
        reason,
        created_at: now,
    };
    enqueuing_keeps_the_order(q, d);
    lemma_put_queue(
        w.bridge_queues,
        QueueModel {
            agent_name: recipient,
            next_delivery_id: next_id(q),
            pending: enqueued(q.pending, d),
        },
    );
}

broadcast proof fn syncing_keeps(w: World, task: TaskModel, reason: Seq<char>, now: Timestamp)
    requires
        w.tidy(),
    ensures
        (#[trigger] w.sync_bridge_for_task(task, reason, now)).tidy(),
{
    broadcast use queue_delivery_keeps;

}

broadcast proof fn persist_agent_keeps(w: World, agent: AgentModel)
    requires
        w.tidy(),
    ensures
        (#[trigger] w.persist_agent(agent)).tidy(),
{
    broadcast use put_keeps_distinct;

}

broadcast proof fn persist_task_keeps(w: World, task: TaskModel, event_type: Seq<char>)
    requires
        w.tidy(),
    ensures
        (#[trigger] w.persist_task(task, event_type)).tidy(),
{
    broadcast use put_keeps_distinct;

}

broadcast proof fn move_task_keeps(
    w: World,
    task: TaskModel,
    event_type: Seq<char>,
    from: TaskState,
)
    requires
        w.tidy(),
    ensures
        (#[trigger] w.move_task(task, event_type, from)).tidy(),
{
    broadcast use put_keeps_distinct;

}

broadcast proof fn record_stream_keeps(
    w: World,
    session_id: Option<Seq<char>>,
    agent: Seq<char>,
    stream: Seq<char>,
    content: Seq<char>,
    now: Timestamp,
)
    requires
        w.tidy(),
    ensures
        (#[trigger] w.record_stream(session_id, agent, stream, content, now)).tidy(),
{
    broadcast use put_keeps_distinct;

}

broadcast proof fn transition_keeps(
    w: World,
    task: TaskModel,
    next: TaskState,
    event_type: Seq<char>,
    actor: Option<Seq<char>>,
    now: Timestamp,
)
    requires
        w.tidy(),
    ensures
        (#[trigger] w.transition(task, next, event_type, actor, now)).0.tidy(),
{
    broadcast use {move_task_keeps, syncing_keeps};

}

broadcast proof fn transition_task_keeps(
    w: World,
    task_id: Seq<char>,
    agent: Seq<char>,
    expected: TaskState,
    next: TaskState,
    event_type: Seq<char>,
    now: Timestamp,
)
    requires
        w.tidy(),
    ensures
        (#[trigger] w.transition_task(task_id, agent, expected, next, event_type, now)).0.tidy(),
{
    broadcast use transition_keeps;

}

broadcast proof fn mirror_decision_keeps(
    w: World,
    task: TaskModel,
    decision: DecisionModel,
    event_type: Seq<char>,
    now: Timestamp,
)
    requires
        w.tidy(),
    ensures
        (#[trigger] w.mirror_decision(task, decision, event_type, now)).tidy(),
{
    broadcast use persist_task_keeps;

}

broadcast proof fn child_feedback_keeps(
    w: World,
    task: TaskModel,
    status: Seq<char>,
    summary: Option<Seq<char>>,
    blocking: Option<Seq<char>>,
    topic: Option<Seq<char>>,
    details: Option<Seq<char>>,
    event_type: Seq<char>,
    now: Timestamp,
)
    requires
        w.tidy(),
    ensures
        (#[trigger] w.child_feedback(
            task,
            status,
            summary,
            blocking,
            topic,
            details,
            event_type,
            now,
        )).0.tidy(),
{
    broadcast use {persist_task_keeps, syncing_keeps};

}

broadcast proof fn send_decision_keeps(
    w: World,
    task_id: Seq<char>,
    issued_by: Seq<char>,
    target: Seq<char>,
    summary: Seq<char>,
    decision_id: Seq<char>,
    now: Timestamp,
)
    requires
        w.tidy(),
    ensures
        (#[trigger] w.send_decision(
            task_id,
            issued_by,
            target,
            summary,
            decision_id,
            now,
        )).0.tidy(),
{
    broadcast use {transition_task_keeps, put_keeps_distinct, mirror_decision_keeps};

}

broadcast proof fn acknowledge_decision_keeps(
    w: World,
    task_id: Seq<char>,
    agent: Seq<char>,
    emit_stream: bool,
    now: Timestamp,
)
    requires
        w.tidy(),
    ensures
        (#[trigger] w.acknowledge_decision(task_id, agent, emit_stream, now)).0.tidy(),
{
    broadcast use {put_keeps_distinct, mirror_decision_keeps, record_stream_keeps};

}

broadcast proof fn reopen_keeps(w: World, task_id: Seq<char>, agent: Seq<char>, now: Timestamp)
    requires
        w.tidy(),
    ensures
        (#[trigger] w.reopen_for_next_round(task_id, agent, now)).0.tidy(),
{
    broadcast use {acknowledge_decision_keeps, transition_task_keeps, persist_agent_keeps};

}

broadcast proof fn close_keeps(w: World, task_id: Seq<char>, agent: Seq<char>, now: Timestamp)
    requires
        w.tidy(),
    ensures
        (#[trigger] w.close_after_decision(task_id, agent, now)).0.tidy(),
{
    broadcast use {acknowledge_decision_keeps, transition_task_keeps, persist_agent_keeps};

}

broadcast proof fn analyze_keeps(w: World, task_id: Seq<char>, analyzer: Seq<char>, now: Timestamp)
    requires
        w.tidy(),
    ensures
        (#[trigger] w.analyze_task(task_id, analyzer, now)).0.tidy(),
{
    broadcast use {transition_keeps, record_stream_keeps};

}

broadcast proof fn resolve_keeps(
    w: World,
    task_id: Seq<char>,
    analyzer: Seq<char>,
    summary: Seq<char>,
    decision_id: Seq<char>,
    now: Timestamp,
)
    requires
        w.tidy(),
    ensures
        (#[trigger] w.resolve_task(task_id, analyzer, summary, decision_id, now)).0.tidy(),
{
    broadcast use {analyze_keeps, send_decision_keeps, reopen_keeps};

}

broadcast proof fn decide_keeps(
    w: World,
    task_id: Seq<char>,
    issued_by: Seq<char>,
    target: Seq<char>,
    summary: Seq<char>,
    auto_close: bool,
    decision_id: Seq<char>,
    now: Timestamp,
)
    requires
        w.tidy(),
    ensures
        (#[trigger] w.decide_task(
            task_id,
            issued_by,
            target,
            summary,
            auto_close,
            decision_id,
            now,
        )).0.tidy(),
{
    broadcast use {send_decision_keeps, reopen_keeps, close_keeps};

}

broadcast proof fn accept_and_run_keeps(
    w: World,
    task_id: Seq<char>,
    agent: Seq<char>,
    now: Timestamp,
)
    requires
        w.tidy(),
    ensures
        (#[trigger] w.accept_and_run(task_id, agent, now)).0.tidy(),
{
    broadcast use transition_task_keeps;

}

broadcast proof fn finalize_round_keeps(
    w: World,
    task: TaskModel,
    payload: PayloadModel,
    thread_id: Option<Seq<char>>,
    completed_at: Timestamp,
    raw: Seq<char>,
    history_event: Seq<char>,
    stream_label: Seq<char>,
    decision_id: Seq<char>,
    now: Timestamp,
)
    requires
        w.tidy(),
    ensures
        (#[trigger] w.finalize_round(
            task,
            payload,
            thread_id,
            completed_at,
            raw,
            history_event,
            stream_label,
            decision_id,
            now,
        )).0.tidy(),
{
    broadcast use {
        transition_task_keeps,
        record_stream_keeps,
        persist_agent_keeps,
        child_feedback_keeps,
        resolve_keeps,
    };

    let ended = w.end_round(task, payload.status, now);
    assert(ended.0.tidy());
}

broadcast proof fn create_task_keeps(
    w: World,
    from: Seq<char>,
    to: Seq<char>,
    draft: DraftModel,
    by: Option<Seq<char>>,
    summary: Option<Seq<char>>,
    reason: Seq<char>,
    task_id: Seq<char>,
    now: Timestamp,
)
    requires
        w.tidy(),
    ensures
        (#[trigger] w.create_task(from, to, draft, by, summary, reason, task_id, now)).0.tidy(),
{
    broadcast use {put_keeps_distinct, persist_agent_keeps, syncing_keeps};

}

broadcast proof fn begin_visible_keeps(
    w: World,
    agent: Seq<char>,
    now: Timestamp,
)
    requires
        w.tidy(),
    ensures
        (#[trigger] w.begin_visible_task(agent, now)).0.tidy(),
{
    broadcast use {accept_and_run_keeps, transition_task_keeps};

}

broadcast proof fn submit_visible_keeps(
    w: World,
    task_id: Seq<char>,
    agent: Seq<char>,
    payload: PayloadModel,
    rendered: Seq<char>,
    decision_id: Seq<char>,
    now: Timestamp,
)
    requires
        w.tidy(),
    ensures
        (#[trigger] w.submit_visible_round(task_id, agent, payload, rendered, decision_id, now)).0.tidy(),
{
    broadcast use {finalize_round_keeps};

}

broadcast proof fn cancel_keeps(
    w: World,
    task_id: Seq<char>,
    requested_by: Seq<char>,
    now: Timestamp,
)
    requires
        w.tidy(),
    ensures
        (#[trigger] w.cancel_task(task_id, requested_by, now)).0.tidy(),
{
    broadcast use {transition_keeps, persist_agent_keeps, record_stream_keeps};

}

broadcast proof fn retry_keeps(
    w: World,
    task_id: Seq<char>,
    requested_by: Seq<char>,
    now: Timestamp,
)
    requires
        w.tidy(),
    ensures
        (#[trigger] w.retry_task(task_id, requested_by, now)).0.tidy(),
{
    broadcast use {move_task_keeps, persist_agent_keeps, record_stream_keeps};

}

broadcast proof fn report_keeps(
    w: World,
    task_id: Seq<char>,
    agent: Seq<char>,
    blocking: Seq<char>,
    topic: Seq<char>,
    details: Seq<char>,
    now: Timestamp,
)
    requires
        w.tidy(),
    ensures
        (#[trigger] w.report_task(task_id, agent, blocking, topic, details, now)).0.tidy(),
{
    broadcast use {transition_task_keeps, persist_agent_keeps, record_stream_keeps, child_feedback_keeps};

}

proof fn lemma_ensure_queue(w: World, agent: AgentModel)
    requires
        w.tidy(),
    ensures
        w.ensure_bridge_queue(agent).tidy(),
{
    broadcast use put_keeps_distinct;

    lemma_put_queue(
        w.bridge_queues,
        QueueModel {
            agent_name: agent.name,
            next_delivery_id: agent.bridge_last_delivery_id,
            pending: Seq::empty(),
        },
    );
}

broadcast proof fn register_keeps(w: World, agent: AgentModel)
    requires
        w.tidy(),
    ensures
        (#[trigger] w.register_agent(agent)).tidy(),
{
    broadcast use put_keeps_distinct;

    let stored = w.emit(EffectModel::SaveAgent { agent });
    lemma_ensure_queue(World { agents: put(stored.agents, agent), ..stored }, agent);
}

broadcast proof fn touch_keeps(
    w: World,
    agent: Seq<char>,
    now: Timestamp,
)
    requires
        w.tidy(),
    ensures
        (#[trigger] w.touch_agent(agent, now)).0.tidy(),
{
    broadcast use {persist_agent_keeps};

}

broadcast proof fn begin_bootstrap_keeps(
    w: World,
    agent: Seq<char>,
    now: Timestamp,
)
    requires
        w.tidy(),
    ensures
        (#[trigger] w.begin_bootstrap(agent, now)).0.tidy(),
{
    broadcast use {persist_agent_keeps, record_stream_keeps};

}

broadcast proof fn mark_ready_keeps(
    w: World,
    agent: Seq<char>,
    summary: Option<Seq<char>>,
    thread_id: Option<Seq<char>>,
    now: Timestamp,
)
    requires
        w.tidy(),
    ensures
        (#[trigger] w.mark_ready(agent, summary, thread_id, now)).0.tidy(),
{
    broadcast use {persist_agent_keeps, record_stream_keeps};

}

broadcast proof fn set_pane_keeps(
    w: World,
    agent: Seq<char>,
    pid: Option<u32>,
    kind: Option<VisiblePaneKind>,
    now: Timestamp,
)
    requires
        w.tidy(),
    ensures
        (#[trigger] w.set_visible_pane(agent, pid, kind, now)).0.tidy(),
{
    broadcast use {persist_agent_keeps};

}

broadcast proof fn set_server_keeps(
    w: World,
    agent: Seq<char>,
    url: Option<Seq<char>>,
    owner: Option<AppServerOwner>,
    now: Timestamp,
)
    requires
        w.tidy(),
    ensures
        (#[trigger] w.set_app_server(agent, url, owner, now)).0.tidy(),
{
    broadcast use {persist_agent_keeps};

}

broadcast proof fn recover_keeps(
    w: World,
    agent: Seq<char>,
    now: Timestamp,
)
    requires
        w.tidy(),
    ensures
        (#[trigger] w.recover_agent(agent, now)).0.tidy(),
{
    broadcast use {persist_agent_keeps, record_stream_keeps};

}

broadcast proof fn reset_thread_keeps(
    w: World,
    agent: Seq<char>,
    now: Timestamp,
)
    requires
        w.tidy(),
    ensures
        (#[trigger] w.reset_thread(agent, now)).0.tidy(),
{
    broadcast use {persist_agent_keeps, record_stream_keeps};

}

broadcast proof fn reset_server_keeps(
    w: World,
    agent: Seq<char>,
    reason: Seq<char>,
    now: Timestamp,
)
    requires
        w.tidy(),
    ensures
        (#[trigger] w.reset_app_server(agent, reason, now)).0.tidy(),
{
    broadcast use {persist_agent_keeps};

}

broadcast proof fn upsert_session_keeps(
    w: World,
    session: SessionModel,
    event_type: Seq<char>,
)
    requires
        w.tidy(),
    ensures
        (#[trigger] w.upsert_session(session, event_type)).tidy(),
{
    broadcast use {put_keeps_distinct};

}

broadcast proof fn finalize_session_keeps(
    w: World,
    session_id: Seq<char>,
    status: CodexSessionStatus,
    ended_at: Timestamp,
    clear: bool,
    now: Timestamp,
)
    requires
        w.tidy(),
    ensures
        (#[trigger] w.finalize_session(session_id, status, ended_at, clear, now)).0.tidy(),
{
    broadcast use {upsert_session_keeps, persist_agent_keeps};

}

broadcast proof fn start_round_keeps(
    w: World,
    session: SessionModel,
    now: Timestamp,
)
    requires
        w.tidy(),
    ensures
        (#[trigger] w.start_round_session(session, now)).0.tidy(),
{
    broadcast use {upsert_session_keeps, persist_agent_keeps, put_keeps_distinct};

}

broadcast proof fn session_event_keeps(
    w: World,
    session_id: Seq<char>,
    agent: Seq<char>,
    event: BackendEvent,
    now: Timestamp,
)
    requires
        w.tidy(),
    ensures
        (#[trigger] w.session_event(session_id, agent, event, now)).tidy(),
{
    broadcast use {upsert_session_keeps, record_stream_keeps};

}

broadcast proof fn finish_round_keeps(
    w: World,
    session_id: Seq<char>,
    agent: Seq<char>,
    finished: BackendFinished,
    now: Timestamp,
)
    requires
        w.tidy(),
    ensures
        (#[trigger] w.finish_round_session(session_id, agent, finished, now)).0.tidy(),
{
    broadcast use {finalize_session_keeps, without_keeps_distinct};

}

broadcast proof fn take_session_keeps(
    w: World,
    agent: Seq<char>,
)
    requires
        w.tidy(),
    ensures
        (#[trigger] w.take_session_to_stop(agent)).0.tidy(),
{
    broadcast use {without_keeps_distinct};

}

broadcast proof fn start_ad_hoc_keeps(
    w: World,
    agent: Seq<char>,
    now: Timestamp,
)
    requires
        w.tidy(),
    ensures
        (#[trigger] w.start_ad_hoc_round(agent, now)).0.tidy(),
{
    broadcast use {persist_agent_keeps};

}

broadcast proof fn finish_ad_hoc_keeps(
    w: World,
    agent: Seq<char>,
    round: RoundModel,
    kept_thread: Option<Seq<char>>,
    missing: Seq<char>,
    now: Timestamp,
)
    requires
        w.tidy(),
    ensures
        (#[trigger] w.finish_ad_hoc_round(agent, round, kept_thread, missing, now)).0.tidy(),
{
    broadcast use {persist_agent_keeps, record_stream_keeps};

}

broadcast proof fn fail_ad_hoc_keeps(
    w: World,
    agent: Seq<char>,
    message: Seq<char>,
    now: Timestamp,
)
    requires
        w.tidy(),
    ensures
        (#[trigger] w.fail_ad_hoc_round(agent, message, now)).0.tidy(),
{
    broadcast use {persist_agent_keeps};

}

broadcast proof fn begin_task_round_keeps(
    w: World,
    task_id: Seq<char>,
    now: Timestamp,
)
    requires
        w.tidy(),
    ensures
        (#[trigger] w.begin_task_round(task_id, now)).0.tidy(),
{
    broadcast use {accept_and_run_keeps};

}

broadcast proof fn fail_task_round_keeps(
    w: World,
    start: RoundStartModel,
    message: Seq<char>,
    now: Timestamp,
)
    requires
        w.tidy(),
    ensures
        (#[trigger] w.fail_task_round(start, message, now)).0.tidy(),
{
    broadcast use {transition_task_keeps, persist_agent_keeps};

}

broadcast proof fn finish_task_round_keeps(
    w: World,
    start: RoundStartModel,
    round: RoundModel,
    payload: Option<PayloadModel>,
    decision_id: Seq<char>,
    now: Timestamp,
)
    requires
        w.tidy(),
    ensures
        (#[trigger] w.finish_task_round(start, round, payload, decision_id, now)).0.tidy(),
{
    broadcast use {finalize_round_keeps};

}

broadcast proof fn begin_managed_keeps(
    w: World,
    agent: Seq<char>,
    now: Timestamp,
)
    requires
        w.tidy(),
    ensures
        (#[trigger] w.begin_managed(agent, now)).0.tidy(),
{
    broadcast use {begin_bootstrap_keeps};

}

broadcast proof fn managed_started_keeps(
    w: World,
    session: SessionModel,
)
    requires
        w.tidy(),
    ensures
        (#[trigger] w.managed_started(session)).tidy(),
{
    broadcast use {upsert_session_keeps, put_keeps_distinct};

}

broadcast proof fn managed_failed_keeps(
    w: World,
    agent: Seq<char>,
    reason: Seq<char>,
    now: Timestamp,
)
    requires
        w.tidy(),
    ensures
        (#[trigger] w.managed_failed(agent, reason, now)).0.tidy(),
{
    broadcast use {reset_server_keeps, without_keeps_distinct};

}

broadcast proof fn managed_reported_keeps(
    w: World,
    agent: Seq<char>,
    session_id: Seq<char>,
    url: Seq<char>,
    final_message: Seq<char>,
    thread_id: Seq<char>,
    now: Timestamp,
)
    requires
        w.tidy(),
    ensures
        (#[trigger] w.managed_reported(agent, session_id, url, final_message, thread_id, now)).0.tidy(),
{
    broadcast use {mark_ready_keeps};

}

broadcast proof fn managed_finished_keeps(
    w: World,
    agent: Seq<char>,
    session_id: Seq<char>,
    lines: Seq<Seq<char>>,
    success: bool,
    stopped: bool,
    status_label: Seq<char>,
    now: Timestamp,
)
    requires
        w.tidy(),
    ensures
        (#[trigger] w.managed_finished(agent, session_id, lines, success, stopped, status_label, now)).tidy(),
{
    broadcast use {finalize_session_keeps, reset_server_keeps, without_keeps_distinct};

}

proof fn lemma_purge(w: World, plan: PlanModel)
    requires
        w.tidy(),
    ensures
        w.purge(plan).tidy(),
{
    lemma_kept_distinct(w.agents, plan.agents, plan.task_ids);
    lemma_kept_distinct(w.tasks, plan.agents, plan.task_ids);
    lemma_kept_distinct(w.decisions, plan.agents, plan.task_ids);
    lemma_kept_distinct(w.sessions, plan.agents, plan.task_ids);
    lemma_kept_distinct(w.active_sessions, plan.agents, plan.task_ids);
    lemma_kept_short(w.recent_streams, plan.agents, plan.task_ids);
    lemma_kept_short(w.recent_runtime_events, plan.agents, plan.task_ids);
}

broadcast proof fn apply_removal_keeps(
    w: World,
    agent: Seq<char>,
    plan: PlanModel,
    rows: DeletedRows,
)
    requires
        w.tidy(),
    ensures
        (#[trigger] w.apply_removal(agent, plan, rows)).0.tidy(),
{
    broadcast use without_keeps_distinct;

    lemma_purge(w, plan);
    lemma_without_queue(w.purge(plan).bridge_queues, agent);
}

broadcast proof fn apply_cleanup_keeps(
    w: World,
    requested_by: Seq<char>,
    plan: PlanModel,
    rows: DeletedRows,
    now: Timestamp,
)
    requires
        w.tidy(),
    ensures
        (#[trigger] w.apply_cleanup(requested_by, plan, rows, now)).0.tidy(),
{
    broadcast use record_stream_keeps;

    lemma_purge(w, plan);
}

proof fn lemma_same_keys<R: Keyed>(s: Seq<R>, t: Seq<R>)
    requires
        distinct(s),
        s.len() == t.len(),
        forall|i: int| 0 <= i < s.len() ==> (#[trigger] t[i]).key() == s[i].key(),
    ensures
        distinct(t),
{
    assert forall|i: int, j: int| 0 <= i < j < t.len() implies (#[trigger] t[i]).key() != (
    #[trigger] t[j]).key() by {
        assert(s[i].key() != s[j].key());
    }
}

/// A repair changes no key and loses no record.
pub proof fn repair_keeps_the_keys(w: World, now: Timestamp)
    ensures
        w.repaired_tables(now).tasks.len() == w.tasks.len(),
        forall|i: int|
            0 <= i < w.tasks.len() ==> (#[trigger] w.repaired_tables(now).tasks[i]).task_id
                == w.tasks[i].task_id,
        w.repaired_tables(now).sessions.len() == w.sessions.len(),
        forall|i: int|
            0 <= i < w.sessions.len() ==> (#[trigger] w.repaired_tables(
                now,
            ).sessions[i]).session_id == w.sessions[i].session_id,
        w.repaired_tables(now).agents.len() == w.agents.len(),
        forall|i: int|
            0 <= i < w.agents.len() ==> (#[trigger] w.repaired_tables(now).agents[i]).name
                == w.agents[i].name,
{
    lemma_repair_tasks(w.tasks, w.decisions, now);
    lemma_repair_sessions(w.sessions, w.handles(), now);
    let t = repair_tasks(w.tasks, w.decisions, now);
    let s = repair_sessions(w.sessions, w.handles(), now);
    lemma_repair_agents(w.agents, t.records, s.records, now);
}

/// Each task is repaired on its own.
pub proof fn lemma_repair_tasks(tasks: Seq<TaskModel>, decisions: Seq<DecisionModel>, now: Timestamp)
    ensures
        repair_tasks(tasks, decisions, now).records.len() == tasks.len(),
        forall|i: int|
            0 <= i < tasks.len() ==> #[trigger] repair_tasks(tasks, decisions, now).records[i]
                == fix_task(tasks[i], decisions, now).record,
    decreases tasks.len(),
{
    if tasks.len() > 0 {
        lemma_repair_tasks(tasks.drop_last(), decisions, now);
    }
}

/// Each session is repaired on its own.
pub proof fn lemma_repair_sessions(
    sessions: Seq<SessionModel>,
    live: Handles,
    now: Timestamp,
)
    ensures
        repair_sessions(sessions, live, now).records.len() == sessions.len(),
        forall|i: int|
            0 <= i < sessions.len() ==> #[trigger] repair_sessions(sessions, live, now).records[i]
                == fix_session(sessions[i], live, now).record,
    decreases sessions.len(),
{
    if sessions.len() > 0 {
        lemma_repair_sessions(sessions.drop_last(), live, now);
    }
}

/// Each agent is repaired on its own.
pub proof fn lemma_repair_agents(
    agents: Seq<AgentModel>,
    tasks: Seq<TaskModel>,
    sessions: Seq<SessionModel>,
    now: Timestamp,
)
    ensures
        repair_agents(agents, tasks, sessions, now).records.len() == agents.len(),
        forall|i: int|
            0 <= i < agents.len() ==> #[trigger] repair_agents(
                agents,
                tasks,
                sessions,
                now,
            ).records[i] == fix_agent(agents[i], tasks, sessions, now).record,
    decreases agents.len(),
{
    if agents.len() > 0 {
        lemma_repair_agents(agents.drop_last(), tasks, sessions, now);
    }
}

pub broadcast proof fn repair_keeps(w: World, requested_by: Seq<char>, now: Timestamp)
    requires
        w.tidy(),
    ensures
        (#[trigger] w.repair(requested_by, now)).0.tidy(),
{
    broadcast use record_stream_keeps;

    repair_keeps_the_keys(w, now);
    let r = w.repaired_tables(now);
    lemma_same_keys(w.tasks, r.tasks);
    lemma_same_keys(w.sessions, r.sessions);
    lemma_same_keys(w.agents, r.agents);
}

broadcast proof fn acknowledge_deliveries_keeps(
    w: World,
    agent: Seq<char>,
    session_id: Option<Seq<char>>,
    delivery_id: u64,
    now: Timestamp,
)
    requires
        w.tidy(),
    ensures
        (#[trigger] w.acknowledge_deliveries(agent, session_id, delivery_id, now)).0.tidy(),
{
    broadcast use {put_keeps_distinct, persist_agent_keeps};

    let q = queue_or_new(w.bridge_queues, agent);
    lemma_queue_or_new(w.bridge_queues, agent);
    let upto = if delivery_id < q.next_delivery_id {
        delivery_id
    } else {
        q.next_delivery_id
    };
    acknowledgement_drops_the_seen(q.pending, upto);
    let drained = QueueModel { pending: after_ack(q.pending, upto), ..q };
    assert(queue_in_order(drained)) by {
        assert forall|i: int| 0 <= i < drained.pending.len() implies (
        #[trigger] drained.pending[i]).delivery_id <= drained.next_delivery_id by {
            let d = drained.pending[i];
            assert(drained.pending.contains(d));
            assert(q.pending.contains(d));
            let k = q.pending.index_of(d);
            assert(q.pending[k].delivery_id <= q.next_delivery_id);
        }
    }
    lemma_put_queue(w.bridge_queues, drained);
}

broadcast proof fn touch_bridge_keeps(
    w: World,
    agent: Seq<char>,
    session_id: Seq<char>,
    now: Timestamp,
)
    requires
        w.tidy(),
    ensures
        (#[trigger] w.touch_bridge_session(agent, session_id, now)).0.tidy(),
{
    broadcast use {persist_agent_keeps};

}

broadcast proof fn presence_keeps(
    w: World,
    agent: Seq<char>,
    state: BridgeConnectionState,
    mode: Option<BridgeMode>,
    session_id: Option<Seq<char>>,
    now: Timestamp,
)
    requires
        w.tidy(),
    ensures
        (#[trigger] w.update_bridge_presence(agent, state, mode, session_id, now)).0.tidy(),
{
    broadcast use {persist_agent_keeps};

}

broadcast proof fn register_bridge_keeps(
    w: World,
    agent: Seq<char>,
    mode: BridgeMode,
    last_ack: Option<u64>,
    session_id: Seq<char>,
    now: Timestamp,
)
    requires
        w.tidy(),
    ensures
        (#[trigger] w.register_bridge(agent, mode, last_ack, session_id, now)).0.tidy(),
{
    broadcast use {acknowledge_deliveries_keeps, presence_keeps, put_keeps_distinct};

    if let Some(a) = w.agent(agent) {
        lemma_ensure_queue(w, a);
    }
}

broadcast proof fn disconnect_keeps(
    w: World,
    agent: Seq<char>,
    session_id: Seq<char>,
    now: Timestamp,
)
    requires
        w.tidy(),
    ensures
        (#[trigger] w.disconnect_bridge(agent, session_id, now)).tidy(),
{
    broadcast use {presence_keeps, without_keeps_distinct};

}

/// A message of a bridge keeps the records filed once, the mailboxes in order and
/// the recent history short.
pub proof fn bridge_message_keeps_order(
    w: World,
    c: ConnectionModel,
    message: BridgeClientMessage,
    fresh: Seq<char>,
    now: Timestamp,
)
    requires
        w.tidy(),
    ensures
        w.bridge_message(c, message, fresh, now).0.tidy(),
        w.close_connection(c, now).tidy(),
{
    broadcast use {
        register_bridge_keeps,
        disconnect_keeps,
        touch_bridge_keeps,
        acknowledge_deliveries_keeps,
    };

}

/// A request keeps the records filed once, the mailboxes in order and the recent
/// history short.
pub proof fn request_keeps_order(
    w: World,
    request: ControlRequest,
    facts: RequestFacts,
    fresh: Seq<char>,
    now: Timestamp,
)
    requires
        w.tidy(),
    ensures
        w.dispatch(request, facts, fresh, now).0.tidy(),
{
    match matter(request) {
        Matter::Agent => {
            broadcast use {
                register_keeps,
                touch_keeps,
                begin_bootstrap_keeps,
                mark_ready_keeps,
                set_pane_keeps,
                set_server_keeps,
                reset_thread_keeps,
                recover_keeps,
            };

        },
        Matter::Task => {
            broadcast use {
                create_task_keeps,
                begin_visible_keeps,
                transition_task_keeps,
                cancel_keeps,
                retry_keeps,
                report_keeps,
                analyze_keeps,
            };

        },
        Matter::Decision => {
            broadcast use {
                submit_visible_keeps,
                resolve_keeps,
                decide_keeps,
                acknowledge_decision_keeps,
                close_keeps,
            };

        },
        Matter::Upkeep => {
            broadcast use {
                apply_cleanup_keeps,
                repair_keeps,
                begin_managed_keeps,
                take_session_keeps,
            };

            if let ControlRequest::CleanupDemoData { requested_by } = request {
                if let Ok(plan) = w.plan_cleanup(requested_by@) {
                    apply_cleanup_keeps(w, requested_by@, plan, no_rows(), now);
                }
            }
        },
        Matter::Round => {
            broadcast use {start_ad_hoc_keeps, begin_task_round_keeps};

        },
        Matter::Look => {},
    }
}

/// What follows a request outside the daemon keeps the same: lines and ends of
/// rounds and app servers, and the removal of agents.
pub proof fn outside_work_keeps_order(
    w: World,
    name: Seq<char>,
    id: Seq<char>,
    message: Seq<char>,
    kept_thread: Option<Seq<char>>,
    url: Seq<char>,
    lines: Seq<Seq<char>>,
    success: bool,
    stopped: bool,
    session: SessionModel,
    event: BackendEvent,
    finished: BackendFinished,
    round: RoundModel,
    start: RoundStartModel,
    payload: Option<PayloadModel>,
    plan: PlanModel,
    rows: DeletedRows,
    entry: RuntimeEventModel,
    now: Timestamp,
)
    requires
        w.tidy(),
    ensures
        w.start_ad_hoc_round(name, now).0.tidy(),
        w.start_round_session(session, now).0.tidy(),
        w.session_event(id, name, event, now).tidy(),
        w.finish_round_session(id, name, finished, now).0.tidy(),
        w.finish_ad_hoc_round(name, round, kept_thread, message, now).0.tidy(),
        w.fail_ad_hoc_round(name, message, now).0.tidy(),
        w.fail_task_round(start, message, now).0.tidy(),
        w.finish_task_round(start, round, payload, id, now).0.tidy(),
        w.managed_started(session).tidy(),
        w.managed_failed(name, message, now).0.tidy(),
        w.managed_reported(name, id, url, message, id, now).0.tidy(),
        w.managed_finished(name, id, lines, success, stopped, message, now).tidy(),
        w.apply_removal(name, plan, rows).0.tidy(),
        w.apply_cleanup(name, plan, rows, now).0.tidy(),
        w.remember_event(entry).tidy(),
{
    broadcast use {
        start_ad_hoc_keeps,
        start_round_keeps,
        session_event_keeps,
        finish_round_keeps,
        finish_ad_hoc_keeps,
        fail_ad_hoc_keeps,
        fail_task_round_keeps,
        finish_task_round_keeps,
        managed_started_keeps,
        managed_failed_keeps,
        managed_reported_keeps,
        managed_finished_keeps,
        apply_removal_keeps,
        apply_cleanup_keeps,
    };

}

proof fn lemma_filed_all<R: Keyed>(rows: Seq<R>)
    ensures
        distinct(filed_all(Seq::empty(), rows)),
    decreases rows.len(),
{
    broadcast use put_keeps_distinct;

    if rows.len() > 0 {
        lemma_filed_all(rows.drop_last());
    }
}

proof fn lemma_filed_queues(rows: Seq<QueueModel>)
    requires
        forall|i: int| 0 <= i < rows.len() ==> (#[trigger] rows[i]).pending.len() == 0,
    ensures
        queues_in_order(filed_all(Seq::empty(), rows)),
    decreases rows.len(),
{
    if rows.len() > 0 {
        let head = rows.drop_last();
        assert forall|i: int| 0 <= i < head.len() implies (#[trigger] head[i]).pending.len()
            == 0 by {
            assert(head[i] == rows[i]);
        }
        lemma_filed_queues(head);
        assert(rows[rows.len() - 1].pending.len() == 0);
        lemma_put_queue(filed_all(Seq::empty(), head), rows.last());
    }
}

/// A daemon that was just loaded has its records filed once and its mailboxes in
/// order, where no more of the recent history was read than the limit allows.
pub proof fn loading_gives_order(
    agents: Seq<AgentModel>,
    tasks: Seq<TaskModel>,
    decisions: Seq<DecisionModel>,
    recent_sessions: Seq<SessionModel>,
    running_sessions: Seq<SessionModel>,
    streams: Seq<StreamModel>,
    events: Seq<RuntimeEventModel>,
)
    requires
        streams.len() <= 500,
        events.len() <= 500,
    ensures
        loaded(
            agents,
            tasks,
            decisions,
            recent_sessions,
            running_sessions,
            streams,
            events,
        ).tidy(),
{
    lemma_filed_all(agents);
    lemma_filed_all(tasks);
    lemma_filed_all(decisions);
    lemma_filed_all(recent_sessions + running_sessions);
    lemma_filed_all(queues_for(agents));
    lemma_filed_queues(queues_for(agents));
}

/// The steps of a start keep the same.
pub proof fn startup_keeps_order(
    w: World,
    name: Seq<char>,
    main_cwd: Seq<char>,
    prompt: Option<Seq<char>>,
    session: SessionModel,
    pid: u32,
    now: Timestamp,
)
    requires
        w.tidy(),
    ensures
        w.ensure_main_agent(main_cwd, prompt, now).tidy(),
        w.sync_prompt(name, main_cwd, prompt).tidy(),
        w.sync_task_decisions().tidy(),
        w.recover_session(session, now).0.tidy(),
        w.normalize_agents(now).tidy(),
        w.recover_pane(name, pid, now).0.tidy(),
{
    broadcast use {
        put_keeps_distinct,
        persist_agent_keeps,
        finalize_session_keeps,
        reset_server_keeps,
        set_pane_keeps,
    };

    lemma_same_keys(w.tasks, mirrored_tasks(w.tasks, w.decisions));
    lemma_same_keys(w.agents, normal_agents(w, w.agents, now));
    let base = match w.agent("main"@) {
        Some(a) => a,
        None => fresh_agent("main"@, AgentRole::Main, Some("hackman"@), main_cwd, prompt, now),
    };
    let placed = if base.cwd == "."@ {
        AgentModel { cwd: main_cwd, ..base }
    } else {
        base
    };
    let prompted = if placed.prompt_path is None && prompt is Some {
        AgentModel { prompt_path: prompt, ..placed }
    } else {
        placed
    };
    let stored = w.emit(EffectModel::SaveAgent { agent: prompted });
    lemma_ensure_queue(World { agents: put(stored.agents, prompted), ..stored }, prompted);
}

proof fn lemma_recover_all_keeps(w: World, stale: Seq<SessionModel>, now: Timestamp)
    requires
        w.tidy(),
    ensures
        w.recover_all(stale, now).0.tidy(),
    decreases stale.len(),
{
    if stale.len() > 0 {
        startup_keeps_order(w, ""@, ""@, None, stale[0], 0, now);
        lemma_recover_all_keeps(w.recover_session(stale[0], now).0, stale.skip(1), now);
    }
}

proof fn lemma_server_keeps(w: World, h: Happening, now: Timestamp)
    requires
        w.tidy(),
        h is ServerStarted || h is ServerListens || h is ServerReported || h is ServerFailed
            || h is ServerReset || h is ServerEnded,
    ensures
        w.after(h, now).tidy(),
{
    broadcast use {
        set_server_keeps,
        reset_server_keeps,
        managed_started_keeps,
        managed_failed_keeps,
        managed_reported_keeps,
        managed_finished_keeps,
    };

}

proof fn lemma_round_keeps(w: World, h: Happening, now: Timestamp)
    requires
        w.tidy(),
        h is AdHocBegun || h is RoundStarted || h is RoundSpoke || h is RoundEnded
            || h is AdHocFinished || h is AdHocFailed || h is StopAsked || h is PaneStopped
            || h is EventStored || h is EffectsTaken,
    ensures
        w.after(h, now).tidy(),
{
    broadcast use {
        record_stream_keeps,
        set_pane_keeps,
        start_ad_hoc_keeps,
        start_round_keeps,
        session_event_keeps,
        finish_round_keeps,
        finish_ad_hoc_keeps,
        fail_ad_hoc_keeps,
    };

}

/// Whatever happens keeps every record filed once, the mailboxes in order and the
/// recent history within its limit.
pub proof fn happening_keeps_order(w: World, h: Happening, now: Timestamp)
    requires
        w.tidy(),
    ensures
        w.after(h, now).tidy(),
{
    let session = new_session(""@, ""@, SessionMode::AppServer, None, None, now);
    match h {
        Happening::Request { request, facts, fresh } => {
            request_keeps_order(w, request, facts, fresh, now);
        },
        Happening::BridgeSpoke { connection, message, fresh } => {
            bridge_message_keeps_order(w, connection, message, fresh, now);
        },
        Happening::BridgeLeft { connection } => {
            bridge_message_keeps_order(w, connection, BridgeClientMessage::Ping, ""@, now);
        },
        Happening::MainFound { main_cwd, prompt } => {
            startup_keeps_order(w, ""@, main_cwd, prompt, session, 0, now);
        },
        Happening::PromptFound { agent, main_cwd, prompt } => {
            startup_keeps_order(w, agent, main_cwd, prompt, session, 0, now);
        },
        Happening::MirrorsRenewed | Happening::AgentsNormalized => {
            startup_keeps_order(w, ""@, ""@, None, session, 0, now);
        },
        Happening::PaneMissed { agent, pid } => {
            startup_keeps_order(w, agent, ""@, None, session, pid, now);
        },
        Happening::SessionsRecovered => {
            lemma_recover_all_keeps(w, running_sessions(w.sessions), now);
        },
        Happening::ServerStarted { .. }
        | Happening::ServerListens { .. }
        | Happening::ServerReported { .. }
        | Happening::ServerFailed { .. }
        | Happening::ServerReset { .. }
        | Happening::ServerEnded { .. } => {
            lemma_server_keeps(w, h, now);
        },
        Happening::TaskDrafted { .. } | Happening::TaskRoundFinished { .. }
        | Happening::TaskRoundFailed { .. } => {
            broadcast use {create_task_keeps, fail_task_round_keeps, finish_task_round_keeps};

        },
        Happening::AgentRemoved { .. } | Happening::DemoRemoved { .. } => {
            broadcast use {apply_removal_keeps, apply_cleanup_keeps};

        },
        _ => {
            lemma_round_keeps(w, h, now);
        },
    }
}

/// The same holds of every course of happenings.
pub proof fn course_keeps_order(w: World, course: Seq<(Happening, Timestamp)>)
    requires
        w.tidy(),
    ensures
        w.in_the_end(course).tidy(),
    decreases course.len(),
{
    if course.len() > 0 {
        course_keeps_order(w, course.drop_last());
        let (h, now) = course.last();
        happening_keeps_order(w.in_the_end(course.drop_last()), h, now);
    }
}

} // verus!
