//! What a bridge can rely on: its mailbox, its session and what it is told.

use vstd::prelude::*;

use crate::bridge::{after_ack, enqueued, next_id, queue_in_order, queue_or_new, ConnectionModel};
use crate::keeping::{acknowledgement_drops_the_seen, enqueuing_keeps_the_order};
use crate::models::{
    BridgeClientMessage, BridgeDeliveryKind, BridgeMode, BridgeServerModel, DecisionModel,
    DeliveryModel, TaskModel,
};
use crate::state::{newest, QueueModel, World};
use crate::table::{found, lemma_put};
use crate::time::Timestamp;

verus! {

/// The number up to which a mailbox is cleared when it is asked for the given one.
pub open spec fn cleared_up_to(q: QueueModel, asked: u64) -> u64 {
    if asked < q.next_delivery_id {
        asked
    } else {
        q.next_delivery_id
    }
}

/// What is queued is the last thing in the recipient's mailbox, under a new number,
/// and what was there before is still there in front of it.
pub proof fn queued_delivery_waits(
    w: World,
    recipient: Seq<char>,
    kind: BridgeDeliveryKind,
    task: Option<TaskModel>,
    decision: Option<DecisionModel>,
    reason: Option<Seq<char>>,
    now: Timestamp,
)
    requires
        w.agent(recipient) is Some,
        queue_in_order(queue_or_new(w.bridge_queues, recipient)),
        queue_or_new(w.bridge_queues, recipient).next_delivery_id < u64::MAX,
    ensures
        ({
            let q = queue_or_new(w.bridge_queues, recipient);
            let after = w.queue_bridge_delivery(recipient, kind, task, decision, reason, now);
            after.pending_deliveries(recipient) == w.pending_deliveries(recipient).push(
                DeliveryModel {
                    delivery_id: (q.next_delivery_id + 1) as u64,
                    agent: recipient,
                    kind,
                    task,
                    decision,
                    reason,
                    created_at: now,
                },
            )
        }),
{
    let q = queue_or_new(w.bridge_queues, recipient);
    let d = DeliveryModel {
        delivery_id: next_id(q),
        agent: recipient,
        kind,
        task,
        decision,
        reason,
        created_at: now,
    };
    let filled = QueueModel {
        agent_name: recipient,
        next_delivery_id: next_id(q),
        pending: enqueued(q.pending, d),
    };
    enqueuing_keeps_the_order(q, d);
    lemma_put(w.bridge_queues, filled, recipient);
}

/// A delivery to one agent leaves the mailboxes of all others as they were.
pub proof fn delivery_is_for_one(
    w: World,
    recipient: Seq<char>,
    kind: BridgeDeliveryKind,
    task: Option<TaskModel>,
    decision: Option<DecisionModel>,
    reason: Option<Seq<char>>,
    now: Timestamp,
    other: Seq<char>,
)
    requires
        other != recipient,
    ensures
        found(
            w.queue_bridge_delivery(recipient, kind, task, decision, reason, now).bridge_queues,
            other,
        ) == found(w.bridge_queues, other),
{
    let q = queue_or_new(w.bridge_queues, recipient);
    let d = DeliveryModel {
        delivery_id: next_id(q),
        agent: recipient,
        kind,
        task,
        decision,
        reason,
        created_at: now,
    };
    lemma_put(
        w.bridge_queues,
        QueueModel {
            agent_name: recipient,
            next_delivery_id: next_id(q),
            pending: enqueued(q.pending, d),
        },
        other,
    );
}

/// A bridge that says hello is given every delivery that was not acknowledged, in
/// order, and its session is now the agent's only one.
pub proof fn hello_replays_the_mailbox(
    w: World,
    agent: Seq<char>,
    mode: BridgeMode,
    last_ack: Option<u64>,
    session_id: Seq<char>,
    now: Timestamp,
)
    requires
        w.agent(agent) is Some,
    ensures
        w.register_bridge(agent, mode, last_ack, session_id, now).1 matches Ok(welcome)
            && welcome.session_id == session_id && welcome.pending_deliveries == (match last_ack {
            Some(id) => match found(w.bridge_queues, agent) {
                Some(q) => after_ack(q.pending, cleared_up_to(q, id)),
                None => Seq::empty(),
            },
            None => w.pending_deliveries(agent),
        }),
        forall|id: Seq<char>|
            (#[trigger] w.register_bridge(
                agent,
                mode,
                last_ack,
                session_id,
                now,
            ).0.validate_bridge_session(agent, id)) is Ok <==> id == session_id,
{
    let a = w.agent(agent)->Some_0;
    let ready = w.ensure_bridge_queue(a);
    let fresh = QueueModel {
        agent_name: a.name,
        next_delivery_id: a.bridge_last_delivery_id,
        pending: Seq::empty(),
    };
    assert(a.name == agent) by {
        crate::table::lemma_place(w.agents, agent);
    }
    lemma_put(w.bridge_queues, fresh, agent);
    let acked = match last_ack {
        Some(id) => ready.acknowledge_deliveries(agent, None, id, now).0,
        None => ready,
    };
    if let Some(id) = last_ack {
        let q = queue_or_new(ready.bridge_queues, agent);
        let pending = after_ack(q.pending, cleared_up_to(q, id));
        lemma_put(ready.bridge_queues, QueueModel { pending, ..q }, agent);
        lemma_key_of_queue(ready.bridge_queues, agent);
        assert(known(acked, agent)) by {
            lemma_stays_known(ready, agent);
        }
        if found(w.bridge_queues, agent) is None {
            assert(pending =~= Seq::empty());
        }
    }
    assert(known(acked, agent));
    lemma_put(
        acked.active_bridges,
        crate::state::LinkModel { agent_name: agent, session_id },
        agent,
    );
    lemma_stays_known(acked, agent);
}

/// The agent is registered.
pub open spec fn known(w: World, agent: Seq<char>) -> bool {
    w.agent(agent) is Some
}

proof fn lemma_key_of_queue(queues: Seq<QueueModel>, agent: Seq<char>)
    ensures
        queue_or_new(queues, agent).agent_name == agent,
{
    crate::table::lemma_place(queues, agent);
}

proof fn lemma_stays_known(w: World, agent: Seq<char>)
    requires
        known(w, agent),
    ensures
        forall|r: crate::models::AgentModel|
            r.name == agent ==> (#[trigger] found(crate::table::put(w.agents, r), agent)) == Some(
                r,
            ),
        w.agent(agent)->Some_0.name == agent,
{
    crate::table::lemma_place(w.agents, agent);
    assert forall|r: crate::models::AgentModel| r.name == agent implies (#[trigger] found(
        crate::table::put(w.agents, r),
        agent,
    )) == Some(r) by {
        lemma_put(w.agents, r, agent);
    }
}

/// A session that another has replaced, or that never was, changes nothing and is
/// told of the error.
pub proof fn stale_session_changes_nothing(
    w: World,
    agent: Seq<char>,
    c: ConnectionModel,
    session_id: String,
    delivery_id: u64,
    fresh: Seq<char>,
    now: Timestamp,
)
    requires
        c.agent == Some(agent),
        w.validate_bridge_session(agent, session_id@) is Err,
    ensures
        ({
            let heartbeat = BridgeClientMessage::Heartbeat { session_id };
            let ack = BridgeClientMessage::DeliveryAck { session_id, delivery_id };
            let sync = BridgeClientMessage::RequestSync { session_id };
            let refused = Some(
                BridgeServerModel::Error {
                    message: w.validate_bridge_session(agent, session_id@)->Err_0,
                },
            );
            &&& w.bridge_message(c, heartbeat, fresh, now) == (w, c, refused)
            &&& w.bridge_message(c, ack, fresh, now) == (w, c, refused)
            &&& w.bridge_message(c, sync, fresh, now) == (w, c, refused)
        }),
{
}

/// A bridge that has not said hello changes nothing.
pub proof fn nothing_before_hello(
    w: World,
    c: ConnectionModel,
    message: BridgeClientMessage,
    fresh: Seq<char>,
    now: Timestamp,
)
    requires
        c.agent is None,
        message !is Hello,
    ensures
        w.bridge_message(c, message, fresh, now).0 == w,
        w.bridge_message(c, message, fresh, now).1 == c,
        message is Ping ==> w.bridge_message(c, message, fresh, now).2 == Some(
            BridgeServerModel::Pong,
        ),
        message !is Ping ==> w.bridge_message(c, message, fresh, now).2 is Some && w.bridge_message(
            c,
            message,
            fresh,
            now,
        ).2->Some_0 is Error,
{
}

/// What was acknowledged is not delivered again, and all else still is.
pub proof fn acknowledged_is_not_replayed(
    w: World,
    agent: Seq<char>,
    mode: BridgeMode,
    id: u64,
    session_id: Seq<char>,
    now: Timestamp,
    d: DeliveryModel,
)
    requires
        w.agent(agent) is Some,
        queue_in_order(queue_or_new(w.bridge_queues, agent)),
    ensures
        w.register_bridge(
            agent,
            mode,
            Some(id),
            session_id,
            now,
        ).1->Ok_0.pending_deliveries.contains(d) <==> w.pending_deliveries(agent).contains(d)
            && d.delivery_id > id,
{
    hello_replays_the_mailbox(w, agent, mode, Some(id), session_id, now);
    if let Some(q) = found(w.bridge_queues, agent) {
        acknowledgement_drops_the_seen(q.pending, cleared_up_to(q, id));
        if q.pending.contains(d) {
            let i = choose|i: int| 0 <= i < q.pending.len() && q.pending[i] == d;
            assert(q.pending[i].delivery_id <= q.next_delivery_id);
        }
    }
}

/// A list that is kept short holds what was added last, and all of what it held
/// before as long as the limit allows.
pub proof fn newest_are_kept<A>(s: Seq<A>, a: A, limit: nat)
    requires
        s.len() <= limit,
        0 < limit,
    ensures
        newest(s.push(a), limit).len() <= limit,
        newest(s.push(a), limit).last() == a,
        s.len() < limit ==> newest(s.push(a), limit) == s.push(a),
        s.len() == limit ==> newest(s.push(a), limit) == s.skip(1).push(a),
{
    if s.len() == limit {
        assert(newest(s.push(a), limit) =~= s.skip(1).push(a));
    }
}

} // verus!
