//! The two ends of a bridge: what the daemon keeps of a connection and answers on it, and
//! what the agent's side makes of the answers.

use vstd::prelude::*;

use crate::bridge::{queue_in_order, ConnectionModel};
use crate::host::{delivery_line, runs_task, snapshot_line, LocalModel};
use crate::keeping::acknowledgement_drops_the_seen;
use crate::models::{
    AgentModel, BridgeClientMessage, BridgeConnectionState, BridgeDeliveryKind, BridgeMode,
    BridgeServerModel, DeliveryModel, SyncModel, TaskState,
};
use crate::order::{ranked, ranked_is_in_order};
use crate::promises::{found_after_put, found_has_its_key};
use crate::runs::taken_out_is_gone;
use crate::standing::{is_newest_on, lemma_newest_on, only_changes};
use crate::state::World;
use crate::table::{distinct, found};
use crate::text::decimal;
use crate::time::Timestamp;
use crate::wording::says;

verus! {

/// The snapshot is of the agent: its record, the task that it names, and the newest
/// decision on that task.
pub open spec fn shows_agent(w: World, agent: Seq<char>, snapshot: SyncModel) -> bool {
    &&& w.agent(agent) == Some(snapshot.agent)
    &&& snapshot.agent.current_task_id is None ==> snapshot.current_task is None
    &&& snapshot.agent.current_task_id matches Some(id) ==> snapshot.current_task == w.task(id)
    &&& snapshot.current_task is None ==> snapshot.latest_decision is None
    &&& snapshot.current_task matches Some(t) ==> is_newest_on(
        w,
        snapshot.latest_decision,
        t.task_id,
    )
}

/// A bridge's snapshot is of its agent.
pub proof fn snapshot_shows_the_agent(w: World, agent: Seq<char>)
    ensures
        w.bridge_snapshot(agent) is Ok <==> w.agent(agent) is Some,
        w.bridge_snapshot(agent) matches Ok(s) ==> shows_agent(w, agent, s),
{
    if let Some(a) = w.agent(agent) {
        if let Some(id) = a.current_task_id {
            if let Some(t) = w.task(id) {
                lemma_newest_on(w, t.task_id);
            }
        }
    }
}

/// Only how the bridge is connected and when the agent was seen differs.
pub open spec fn same_but_for_bridge(a: AgentModel, b: AgentModel) -> bool {
    b == AgentModel {
        bridge_state: b.bridge_state,
        bridge_mode: b.bridge_mode,
        bridge_session_id: b.bridge_session_id,
        bridge_connected_at: b.bridge_connected_at,
        bridge_last_seen_at: b.bridge_last_seen_at,
        bridge_last_ack_delivery_id: b.bridge_last_ack_delivery_id,
        bridge_pending_delivery_count: b.bridge_pending_delivery_count,
        last_heartbeat_at: b.last_heartbeat_at,
        ..a
    }
}

/// A bridge that says hello is connected in its mode under its session, now; what it is
/// told is the agent as it is then.
pub proof fn hello_connects_the_agent(
    w: World,
    agent: Seq<char>,
    mode: BridgeMode,
    last_ack: Option<u64>,
    session_id: Seq<char>,
    now: Timestamp,
)
    ensures
        ({
            let r = w.register_bridge(agent, mode, last_ack, session_id, now);
            &&& r.1 is Ok <==> w.agent(agent) is Some
            &&& r.1 is Err ==> r.0 == w
            &&& r.1 matches Ok(welcome) ==> {
                &&& welcome.session_id == session_id
                &&& shows_agent(r.0, agent, welcome.snapshot)
                &&& welcome.pending_deliveries == r.0.pending_deliveries(agent)
                &&& found(r.0.active_bridges, agent) matches Some(link) && link.session_id
                    == session_id
                &&& forall|n: Seq<char>|
                    n != agent ==> #[trigger] found(r.0.active_bridges, n) == found(
                        w.active_bridges,
                        n,
                    )
                &&& r.0.agent(agent) matches Some(a) && a.bridge_state
                    == BridgeConnectionState::Connected && a.bridge_mode == Some(mode)
                    && a.bridge_session_id == Some(session_id) && a.bridge_connected_at == Some(now)
                    && a.bridge_last_seen_at == Some(now) && a.last_heartbeat_at == Some(now)
                    && same_but_for_bridge(w.agent(agent)->Some_0, a)
                &&& r.0.tasks == w.tasks && r.0.decisions == w.decisions && r.0.sessions
                    == w.sessions
                &&& forall|n: Seq<char>| n != agent ==> #[trigger] r.0.agent(n) == w.agent(n)
                &&& forall|n: Seq<char>|
                    n != agent ==> #[trigger] r.0.pending_deliveries(n) == w.pending_deliveries(n)
            }
        }),
{
    broadcast use {found_after_put, found_has_its_key};

    let r = w.register_bridge(agent, mode, last_ack, session_id, now);
    snapshot_shows_the_agent(r.0, agent);
    if let Some(a) = w.agent(agent) {
        let ready = w.ensure_bridge_queue(a);
        assert(ready.agents == w.agents);
        if let Some(id) = last_ack {
            let acked = ready.acknowledge_deliveries(agent, None, id, now);
            assert(acked.1 is Ok);
        }
    }
}

/// A bridge that has gone is no longer connected: its agent has no mode and no session of a
/// bridge, and keeps its work and its mailbox. One whose session another has replaced changes
/// nothing.
pub proof fn gone_bridge_is_disconnected(
    w: World,
    agent: Seq<char>,
    session_id: Seq<char>,
    now: Timestamp,
)
    requires
        distinct(w.active_bridges),
    ensures
        ({
            let after = w.disconnect_bridge(agent, session_id, now);
            let current = found(w.active_bridges, agent) is Some && found(
                w.active_bridges,
                agent,
            )->Some_0.session_id == session_id;
            &&& !current ==> after == w
            &&& current ==> {
                &&& found(after.active_bridges, agent) is None
                &&& w.agent(agent) matches Some(old) ==> (after.agent(agent) matches Some(a)
                    && a.bridge_state == BridgeConnectionState::Disconnected && a.bridge_mode
                    is None && a.bridge_session_id is None && a.bridge_last_seen_at == Some(now)
                    && a.bridge_connected_at == old.bridge_connected_at && same_but_for_bridge(
                    old,
                    a,
                ))
                &&& after.bridge_queues == w.bridge_queues
                &&& after.tasks == w.tasks
                &&& forall|n: Seq<char>| n != agent ==> #[trigger] after.agent(n) == w.agent(n)
            }
        }),
{
    broadcast use {found_after_put, found_has_its_key};

    taken_out_is_gone(w.active_bridges, agent, agent);
}

/// An acknowledgement on the current session takes every delivery up to that number out of
/// the mailbox and leaves the others there in their order; the agent's record tells how many
/// are left. The number that counts as acknowledged never falls.
pub proof fn acknowledgement_clears_the_mailbox(
    w: World,
    agent: Seq<char>,
    session_id: Seq<char>,
    id: u64,
    now: Timestamp,
    d: DeliveryModel,
)
    requires
        w.agent(agent) is Some,
        found(w.bridge_queues, agent) matches Some(q) && queue_in_order(q) && q.pending.len()
            <= u32::MAX,
        found(w.active_bridges, agent) is Some,
    ensures
        ({
            let r = w.acknowledge_deliveries(agent, Some(session_id), id, now);
            let old = w.agent(agent)->Some_0;
            let q = found(w.bridge_queues, agent)->Some_0;
            let current = found(w.active_bridges, agent)->Some_0.session_id == session_id;
            &&& r.1 is Ok <==> current
            &&& !current ==> r.0 == w
            &&& current ==> {
                &&& r.0.pending_deliveries(agent).contains(d) <==> w.pending_deliveries(
                    agent,
                ).contains(d) && d.delivery_id > id
                &&& found(r.0.bridge_queues, agent) matches Some(left) && queue_in_order(left)
                    && left.next_delivery_id == q.next_delivery_id
                &&& r.0.agent(agent) matches Some(a) && r.1 == Ok::<AgentModel, Seq<char>>(a)
                    && a.bridge_pending_delivery_count == r.0.pending_deliveries(agent).len()
                    && a.bridge_last_ack_delivery_id >= old.bridge_last_ack_delivery_id && (id
                    <= q.next_delivery_id ==> a.bridge_last_ack_delivery_id >= id) && (
                a.bridge_last_ack_delivery_id == old.bridge_last_ack_delivery_id || (
                a.bridge_last_ack_delivery_id <= id && a.bridge_last_ack_delivery_id
                    <= q.next_delivery_id)) && a.bridge_last_seen_at == Some(now)
                    && same_but_for_bridge(old, a) && a.bridge_state == old.bridge_state
                    && a.bridge_session_id == old.bridge_session_id
            }
        }),
{
    broadcast use {found_after_put, found_has_its_key};

    let q = found(w.bridge_queues, agent)->Some_0;
    let upto = if id < q.next_delivery_id {
        id
    } else {
        q.next_delivery_id
    };
    acknowledgement_drops_the_seen(q.pending, upto);
    if q.pending.contains(d) {
        let i = q.pending.index_of(d);
        assert(q.pending[i].delivery_id <= q.next_delivery_id);
    }
    let left = crate::bridge::after_ack(q.pending, upto);
    assert forall|i: int| 0 <= i < left.len() implies (#[trigger] left[i]).delivery_id
        <= q.next_delivery_id by {
        assert(left.contains(left[i]));
        let j = q.pending.index_of(left[i]);
        assert(q.pending[j].delivery_id <= q.next_delivery_id);
    }
}

/// A sign of life on the current session is noted, and any other session is refused.
pub proof fn bridge_heartbeat_is_noted(
    w: World,
    agent: Seq<char>,
    session_id: Seq<char>,
    now: Timestamp,
)
    ensures
        ({
            let r = w.touch_bridge_session(agent, session_id, now);
            &&& r.1 is Ok <==> w.agent(agent) is Some && (found(
                w.active_bridges,
                agent,
            ) matches Some(link) && link.session_id == session_id)
            &&& r.1 is Err ==> r.0 == w
            &&& r.1 matches Ok(a) ==> only_changes(w, r.0, agent, a) && a == (AgentModel {
                bridge_state: BridgeConnectionState::Connected,
                bridge_last_seen_at: Some(now),
                last_heartbeat_at: Some(now),
                ..w.agent(agent)->Some_0
            })
        }),
{
    broadcast use {found_after_put, found_has_its_key};

}

/// What a bridge says is carried out for the agent that said hello on that connection: a
/// hello binds the connection to its agent and to the new session and is welcomed with the
/// deliveries that wait; a heartbeat and an acknowledgement are carried out without an
/// answer; a request for a snapshot is answered with one.
pub proof fn message_is_carried_out(
    w: World,
    c: ConnectionModel,
    message: BridgeClientMessage,
    fresh: Seq<char>,
    now: Timestamp,
)
    ensures
        ({
            let r = w.bridge_message(c, message, fresh, now);
            &&& message is Ping ==> r == (w, c, Some(BridgeServerModel::Pong))
            &&& !(message is Hello) ==> r.1 == c
            &&& message matches BridgeClientMessage::Hello { agent, mode, last_ack_delivery_id }
                ==> {
                &&& (r.2 is Some && r.2->Some_0 is Welcome) ==> r.1.agent == Some(agent@)
                    && r.1.session_id == Some(fresh) && (r.2 matches Some(
                    BridgeServerModel::Welcome { session_id, snapshot, pending_deliveries },
                ) && session_id == fresh && shows_agent(r.0, agent@, snapshot)
                    && pending_deliveries == r.0.pending_deliveries(agent@)) && (r.0.agent(
                    agent@,
                ) matches Some(a) && a.bridge_mode == Some(mode) && a.bridge_session_id == Some(
                    fresh,
                ))
                &&& r.2 is Some && (r.2->Some_0 is Welcome || r.2->Some_0 is Error)
                &&& c.agent is None || c.session_id is None ==> (w.agent(agent@) is Some
                    <==> r.2->Some_0 is Welcome)
            }
            &&& message is Heartbeat && c.agent is Some ==> r.0 == w.touch_bridge_session(
                c.agent->Some_0,
                message->Heartbeat_session_id@,
                now,
            ).0 && (r.2 is None || r.0 == w)
            &&& message is DeliveryAck && c.agent is Some ==> r.0 == w.acknowledge_deliveries(
                c.agent->Some_0,
                Some(message->DeliveryAck_session_id@),
                message->delivery_id,
                now,
            ).0
            &&& message is RequestSync ==> r.0 == w
        }),
{
    if let BridgeClientMessage::Hello { agent, mode, last_ack_delivery_id } = message {
        let left = w.close_connection(c, now);
        hello_connects_the_agent(left, agent@, mode, last_ack_delivery_id, fresh, now);
    }
}

/// A request for a snapshot on the current session is answered with the agent as it is and
/// the deliveries that wait.
pub proof fn sync_shows_the_agent(
    w: World,
    agent: Seq<char>,
    session_id: Seq<char>,
    reason: Seq<char>,
)
    ensures
        ({
            let r = w.bridge_sync_message(agent, session_id, reason);
            &&& r is Ok <==> w.agent(agent) is Some && (found(
                w.active_bridges,
                agent,
            ) matches Some(link) && link.session_id == session_id)
            &&& r matches Ok(m) ==> (m matches BridgeServerModel::SyncSnapshot {
                session_id: id,
                reason: why,
                snapshot,
                pending_deliveries,
            } && id == session_id && why == reason && shows_agent(w, agent, snapshot)
                && pending_deliveries == w.pending_deliveries(agent))
        }),
{
    snapshot_shows_the_agent(w, agent);
}

/// The agent's side takes its session, its agent and its task from a welcome or a snapshot,
/// and is then given every delivery that came with it, in the order of their numbers.
pub proof fn welcome_is_taken_in(
    local: LocalModel,
    agent: Seq<char>,
    session_id: Seq<char>,
    reason: Seq<char>,
    snapshot: SyncModel,
    pending: Seq<DeliveryModel>,
)
    ensures
        ({
            let welcome = local.receive(
                agent,
                BridgeServerModel::Welcome { session_id, snapshot, pending_deliveries: pending },
            );
            let sync = local.receive(
                agent,
                BridgeServerModel::SyncSnapshot {
                    session_id,
                    reason,
                    snapshot,
                    pending_deliveries: pending,
                },
            );
            &&& welcome.0 == sync.0
            &&& welcome.0.session_id == Some(session_id)
            &&& welcome.0.agent == Some(snapshot.agent)
            &&& welcome.0.current_task == snapshot.current_task
            &&& welcome.0.last_ack_delivery_id == local.last_ack_delivery_id
            &&& welcome.1 matches Ok(step) && step.session_id == session_id
                && step.deliveries.to_multiset() == pending.to_multiset() && numbers_rise(
                step.deliveries,
            )
            &&& sync.1 matches Ok(step) && step.session_id == session_id
                && step.deliveries.to_multiset() == pending.to_multiset() && numbers_rise(
                step.deliveries,
            )
        }),
{
    ranked_is_in_order(pending);
    let step = ranked(pending);
    assert forall|i: int, j: int| 0 <= i < j < step.len() implies (#[trigger] step[i]).delivery_id
        <= (#[trigger] step[j]).delivery_id by {
        assert(crate::order::Ranked::not_after(step[i], step[j]));
    }
}

/// The numbers do not fall.
pub open spec fn numbers_rise(deliveries: Seq<DeliveryModel>) -> bool {
    forall|i: int, j: int|
        0 <= i < j < deliveries.len() ==> (#[trigger] deliveries[i]).delivery_id <= (
        #[trigger] deliveries[j]).delivery_id
}

/// A delivery is processed exactly where it comes on the session that was opened last, and
/// alone; an error ends the connection, and a pong means nothing. None of these changes what
/// is known.
pub proof fn delivery_is_taken_on_its_session(
    local: LocalModel,
    agent: Seq<char>,
    session_id: Seq<char>,
    delivery: DeliveryModel,
    message: Seq<char>,
)
    ensures
        ({
            let r = local.receive(agent, BridgeServerModel::Delivery { session_id, delivery });
            let e = local.receive(agent, BridgeServerModel::Error { message });
            let p = local.receive(agent, BridgeServerModel::Pong);
            &&& r.0 == local && e.0 == local && p.0 == local
            &&& r.1 is Ok <==> local.session_id == Some(session_id)
            &&& r.1 matches Ok(step) ==> step.session_id == session_id && step.deliveries
                == seq![delivery]
            &&& e.1 is Err
            &&& p.1 matches Ok(step) && step.deliveries.len() == 0
        }),
{
    assert(Seq::empty().push(delivery) =~= seq![delivery]);
}

/// A delivery that carries a task makes it the current one; one that was processed counts as
/// acknowledged, and so does everything before it.
pub proof fn processed_delivery_is_remembered(local: LocalModel, delivery: DeliveryModel)
    ensures
        delivery.task is Some ==> local.taken(delivery).current_task == delivery.task,
        delivery.task is None ==> local.taken(delivery) == local,
        local.taken(delivery).session_id == local.session_id,
        local.taken(delivery).agent == local.agent,
        local.taken(delivery).last_ack_delivery_id == local.last_ack_delivery_id,
        local.acknowledged(delivery).last_ack_delivery_id >= delivery.delivery_id,
        local.acknowledged(delivery).last_ack_delivery_id >= local.last_ack_delivery_id,
        local.acknowledged(delivery).last_ack_delivery_id == delivery.delivery_id
            || local.acknowledged(delivery).last_ack_delivery_id == local.last_ack_delivery_id,
        local.acknowledged(delivery).current_task == local.current_task,
        local.acknowledged(delivery).session_id == local.session_id,
        local.acknowledged(delivery).agent == local.agent,
{
}

/// The agent's side starts a round by itself exactly for a task that is handed over to it
/// and waits, and only in the mode that runs tasks; the round is of that task.
pub proof fn only_a_waiting_dispatch_is_run(delivery: DeliveryModel, mode: BridgeMode)
    ensures
        runs_task(delivery, mode) is Some <==> {
            &&& mode == BridgeMode::Autorun
            &&& delivery.kind == BridgeDeliveryKind::TaskDispatch
            &&& delivery.task matches Some(t) && t.state == TaskState::Pending
        },
        runs_task(delivery, mode) matches Some(id) ==> (delivery.task matches Some(t) && t.task_id
            == id),
        mode == BridgeMode::Passive ==> runs_task(delivery, mode) is None,
{
}

proof fn lemma_in_the_middle(before: Seq<char>, words: Seq<char>, after: Seq<char>)
    ensures
        says(before + words + after, words),
{
}

/// The line for a delivery tells its number, its kind, its task and that task's state, its
/// decision and that one's status, and its reason.
pub proof fn line_tells_the_delivery(delivery: DeliveryModel)
    ensures
        ({
            let line = delivery_line(delivery);
            &&& says(line, "[agenthost] delivery "@ + decimal(delivery.delivery_id as nat))
            &&& says(line, " | kind="@ + delivery.kind.shown())
            &&& delivery.task matches Some(t) ==> says(
                line,
                "task="@ + t.task_id + " state="@ + t.state.shown(),
            )
            &&& delivery.decision matches Some(d) ==> says(
                line,
                "decision="@ + d.decision_id + " status="@ + d.status,
            )
            &&& delivery.reason matches Some(s) ==> says(line, "reason="@ + s)
        }),
{
    let line = delivery_line(delivery);
    let head = "[agenthost] delivery "@ + decimal(delivery.delivery_id as nat);
    let bar = " | "@;
    let task = match delivery.task {
        Some(t) => "task="@ + t.task_id + " state="@ + t.state.shown(),
        None => "task=-"@,
    };
    let decision = match delivery.decision {
        Some(d) => "decision="@ + d.decision_id + " status="@ + d.status,
        None => "decision=-"@,
    };
    let reason = match delivery.reason {
        Some(s) => "reason="@ + s,
        None => "reason=-"@,
    };
    lemma_line_parts(head, " | kind="@, delivery.kind.shown(), bar, task, decision, reason);
    assert(line == head + " | kind="@ + delivery.kind.shown() + bar + (task + bar + decision + bar
        + reason));
}

proof fn lemma_line_parts(
    head: Seq<char>,
    label: Seq<char>,
    kind: Seq<char>,
    bar: Seq<char>,
    task: Seq<char>,
    decision: Seq<char>,
    reason: Seq<char>,
)
    ensures
        ({
            let line = head + label + kind + bar + (task + bar + decision + bar + reason);
            &&& says(line, head)
            &&& says(line, label + kind)
            &&& says(line, task)
            &&& says(line, decision)
            &&& says(line, reason)
        }),
{
    let e = Seq::<char>::empty();
    let told = task + bar + decision + bar + reason;
    let line = head + label + kind + bar + told;
    assert(says(line, head)) by {
        assert(line =~= e + head + (label + kind + bar + told));
        lemma_in_the_middle(e, head, label + kind + bar + told);
    }
    assert(says(line, label + kind)) by {
        assert(line =~= head + (label + kind) + (bar + told));
        lemma_in_the_middle(head, label + kind, bar + told);
    }
    let front = head + label + kind + bar;
    assert(says(line, task)) by {
        assert(line =~= front + task + (bar + decision + bar + reason));
        lemma_in_the_middle(front, task, bar + decision + bar + reason);
    }
    assert(says(line, decision)) by {
        assert(line =~= (front + task + bar) + decision + (bar + reason));
        lemma_in_the_middle(front + task + bar, decision, bar + reason);
    }
    assert(says(line, reason)) by {
        assert(line =~= (front + (task + bar + decision + bar)) + reason + e);
        lemma_in_the_middle(front + (task + bar + decision + bar), reason, e);
    }
}

/// The line for a snapshot tells the agent, its bridge, and its task with that task's state.
pub proof fn line_tells_the_snapshot(snapshot: SyncModel)
    ensures
        ({
            let line = snapshot_line(snapshot);
            &&& says(line, "[agenthost] snapshot | agent="@ + snapshot.agent.name)
            &&& says(line, " | bridge="@ + snapshot.agent.bridge_state.shown())
            &&& snapshot.current_task matches Some(t) ==> says(
                line,
                " | task="@ + (t.task_id + ":"@ + t.state.shown()),
            )
        }),
{
    let e = Seq::<char>::empty();
    let line = snapshot_line(snapshot);
    let first = "[agenthost] snapshot | agent="@ + snapshot.agent.name;
    let bridge = " | bridge="@ + snapshot.agent.bridge_state.shown();
    let last = match snapshot.current_task {
        Some(t) => t.task_id + ":"@ + t.state.shown(),
        None => "-"@,
    };
    assert(says(line, first)) by {
        assert(line =~= e + first + (bridge + " | task="@ + last));
        lemma_in_the_middle(e, first, bridge + " | task="@ + last);
    }
    assert(says(line, bridge)) by {
        assert(line =~= first + bridge + (" | task="@ + last));
        lemma_in_the_middle(first, bridge, " | task="@ + last);
    }
    assert(says(line, " | task="@ + last)) by {
        assert(line =~= (first + bridge) + (" | task="@ + last) + e);
        lemma_in_the_middle(first + bridge, " | task="@ + last, e);
    }
}

} // verus!
