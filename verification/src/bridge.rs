//! Bridges: the mailboxes of the agents and the sessions that drain them.

use vstd::prelude::*;

use crate::decision::{latest_decision, latest_decision_for_task};
use crate::failure::{seen, Failure};
use crate::json::{json_opt, no_fields, object_text, JsonModel, JsonObject, JsonValue};
use crate::models::{
    AgentModel, AgentSummary, BridgeClientMessage, BridgeConnectionState, BridgeDelivery,
    BridgeDeliveryKind, BridgeMode, BridgeServerMessage, BridgeServerModel, BridgeSyncSnapshot,
    DecisionModel, DecisionSummary, DeliveryModel, SyncModel, TaskModel, TaskState, TaskSummary,
};
use crate::state::{
    known_agent, AppShared, BridgeDeliveryQueue, BridgeLink, Effect, EffectModel, EventDraftModel,
    LinkModel, QueueModel, RuntimeEventDraft, World,
};
use crate::table::{found, put, view_opt, views, without, Dup};
use crate::text::{copy_text, decimal, opt_str, opt_text, same_text, text, to_decimal};
use crate::time::Timestamp;

verus! {

/// The mailbox of an agent; one that has none yet starts at zero.
pub open spec fn queue_or_new(queues: Seq<QueueModel>, agent: Seq<char>) -> QueueModel {
    match found(queues, agent) {
        Some(q) => q,
        None => QueueModel { agent_name: agent, next_delivery_id: 0, pending: Seq::empty() },
    }
}

/// The mailbox with the delivery put in under its number.
pub open spec fn enqueued(pending: Seq<DeliveryModel>, d: DeliveryModel) -> Seq<DeliveryModel> {
    if pending.len() > 0 && pending.last().delivery_id == d.delivery_id {
        pending.update(pending.len() - 1, d)
    } else {
        pending.push(d)
    }
}

/// The deliveries with numbers above the given one, in order.
pub open spec fn after_ack(pending: Seq<DeliveryModel>, upto: u64) -> Seq<DeliveryModel>
    decreases pending.len(),
{
    if pending.len() == 0 {
        pending
    } else {
        let rest = after_ack(pending.drop_last(), upto);
        if pending.last().delivery_id > upto {
            rest.push(pending.last())
        } else {
            rest
        }
    }
}

/// The mailbox is in order: the numbers rise and none is above the last one given out.
pub open spec fn queue_in_order(q: QueueModel) -> bool {
    &&& forall|i: int, j: int|
        0 <= i < j < q.pending.len() ==> (#[trigger] q.pending[i]).delivery_id < (
        #[trigger] q.pending[j]).delivery_id
    &&& forall|i: int|
        0 <= i < q.pending.len() ==> (#[trigger] q.pending[i]).delivery_id <= q.next_delivery_id
}

pub open spec fn kind_for(state: TaskState) -> Option<BridgeDeliveryKind> {
    match state {
        TaskState::Pending => Some(BridgeDeliveryKind::TaskDispatch),
        TaskState::Reported | TaskState::BlockedWaitingDecision => Some(
            BridgeDeliveryKind::TaskFeedback,
        ),
        TaskState::Cancelled => Some(BridgeDeliveryKind::TaskCancelled),
        TaskState::Closed => Some(BridgeDeliveryKind::TaskClosed),
        _ => None,
    }
}

pub open spec fn next_id(q: QueueModel) -> u64 {
    if q.next_delivery_id == u64::MAX {
        u64::MAX
    } else {
        (q.next_delivery_id + 1) as u64
    }
}

impl World {
    pub open spec fn pending_count(self, agent: Seq<char>) -> u32 {
        match found(self.bridge_queues, agent) {
            Some(q) => q.pending.len() as u32,
            None => 0,
        }
    }

    pub open spec fn pending_deliveries(self, agent: Seq<char>) -> Seq<DeliveryModel> {
        match found(self.bridge_queues, agent) {
            Some(q) => q.pending,
            None => Seq::empty(),
        }
    }

    /// A mailbox for the agent, with the numbers going on from its record.
    pub open spec fn ensure_bridge_queue(self, agent: AgentModel) -> World {
        match found(self.bridge_queues, agent.name) {
            Some(_) => self,
            None => World {
                bridge_queues: put(
                    self.bridge_queues,
                    QueueModel {
                        agent_name: agent.name,
                        next_delivery_id: agent.bridge_last_delivery_id,
                        pending: Seq::empty(),
                    },
                ),
                ..self
            },
        }
    }

    /// A ledger entry on a bridge.
    pub open spec fn log_bridge(
        self,
        agent: Seq<char>,
        task_id: Option<Seq<char>>,
        session_id: Option<Seq<char>>,
        event_type: Seq<char>,
        summary: Seq<char>,
        reason: Option<Seq<char>>,
        payload: Seq<char>,
    ) -> World {
        self.log(
            EventDraftModel {
                scope: "bridge"@,
                scope_id: agent,
                agent_name: Some(agent),
                task_id,
                session_id,
                actor_name: Some(agent),
                event_type,
                summary,
                reason,
                payload_json: Some(payload),
            },
        )
    }

    /// A delivery is put into the recipient's mailbox under the next number and
    /// sent to the bridge that is connected. Nothing happens for an agent that
    /// is not registered.
    pub open spec fn queue_bridge_delivery(
        self,
        recipient: Seq<char>,
        kind: BridgeDeliveryKind,
        task: Option<TaskModel>,
        decision: Option<DecisionModel>,
        reason: Option<Seq<char>>,
        now: Timestamp,
    ) -> World {
        match self.agent(recipient) {
            None => self,
            Some(agent) => {
                let q = queue_or_new(self.bridge_queues, recipient);
                let id = next_id(q);
                let delivery = DeliveryModel {
                    delivery_id: id,
                    agent: recipient,
                    kind,
                    task,
                    decision,
                    reason,
                    created_at: now,
                };
                let pending = enqueued(q.pending, delivery);
                let filled = World {
                    bridge_queues: put(
                        self.bridge_queues,
                        QueueModel { agent_name: recipient, next_delivery_id: id, pending },
                    ),
                    ..self
                };
                let updated = AgentModel {
                    bridge_last_delivery_id: id,
                    bridge_pending_delivery_count: pending.len() as u32,
                    ..agent
                };
                let task_id = match task {
                    Some(t) => Some(t.task_id),
                    None => None,
                };
                let decision_id = match decision {
                    Some(d) => Some(d.decision_id),
                    None => None,
                };
                let logged = filled.persist_agent(updated).log_bridge(
                    recipient,
                    task_id,
                    None,
                    "bridge_delivery_queued"@,
                    "queued "@ + kind.shown() + " delivery "@ + decimal(id as nat),
                    reason,
                    object_text(
                        no_fields().push(("delivery_id"@, JsonModel::Number(id))).push(
                            ("kind"@, JsonModel::Text(kind.label())),
                        ).push(("task_id"@, json_opt(task_id))).push(
                            ("decision_id"@, json_opt(decision_id)),
                        ),
                    ),
                );
                match found(self.active_bridges, recipient) {
                    Some(link) => logged.emit(
                        EffectModel::SendBridge {
                            session_id: link.session_id,
                            message: BridgeServerModel::Delivery {
                                session_id: link.session_id,
                                delivery,
                            },
                        },
                    ),
                    None => logged,
                }
            },
        }
    }

    /// The agent that a task's state concerns is told of the task.
    pub open spec fn sync_bridge_for_task(
        self,
        task: TaskModel,
        reason: Seq<char>,
        now: Timestamp,
    ) -> World {
        match kind_for(task.state) {
            Some(kind) => self.queue_bridge_delivery(
                if kind == BridgeDeliveryKind::TaskFeedback {
                    task.from_agent
                } else {
                    task.to_agent
                },
                kind,
                Some(task),
                latest_decision(self.decisions, task.task_id),
                Some(reason),
                now,
            ),
            None => self,
        }
    }
}

impl AppShared {
    pub fn queue_of(&self, agent: &str) -> (r: BridgeDeliveryQueue)
        ensures
            r@ == queue_or_new(self@.bridge_queues, agent@),
    {
        match self.bridge_queues.get(agent) {
            Some(q) => q,
            None => {
                let r = BridgeDeliveryQueue {
                    agent_name: text(agent),
                    next_delivery_id: 0,
                    pending: Vec::new(),
                };
                assert(r@.pending =~= Seq::empty());
                r
            },
        }
    }

    pub fn bridge_pending_count(&self, agent: &str) -> (r: u32)
        ensures
            r == self@.pending_count(agent@),
    {
        match self.bridge_queues.get(agent) {
            Some(q) => q.pending.len() as u32,
            None => 0,
        }
    }

    pub fn pending_bridge_deliveries(&self, agent: &str) -> (r: Vec<BridgeDelivery>)
        ensures
            views(r@) == self@.pending_deliveries(agent@),
    {
        match self.bridge_queues.get(agent) {
            Some(q) => q.pending,
            None => {
                let r: Vec<BridgeDelivery> = Vec::new();
                assert(views(r@) =~= Seq::empty());
                r
            },
        }
    }

    pub fn ensure_bridge_queue_exists(&mut self, agent: &AgentSummary)
        ensures
            final(self)@ == old(self)@.ensure_bridge_queue(agent@),
    {
        if !self.bridge_queues.has(agent.name.as_str()) {
            let q = BridgeDeliveryQueue {
                agent_name: agent.name.clone(),
                next_delivery_id: agent.bridge_last_delivery_id,
                pending: Vec::new(),
            };
            assert(q@.pending =~= Seq::empty());
            self.bridge_queues.put(q);
        }
    }

    pub fn log_bridge(
        &mut self,
        agent: &str,
        task_id: &Option<String>,
        session_id: Option<&str>,
        event_type: &str,
        summary: &str,
        reason: &Option<String>,
        payload: String,
    )
        ensures
            final(self)@ == old(self)@.log_bridge(
                agent@,
                opt_text(*task_id),
                opt_str(session_id),
                event_type@,
                summary@,
                opt_text(*reason),
                payload@,
            ),
    {
        let session = match session_id {
            Some(id) => Some(text(id)),
            None => None,
        };
        self.log(
            RuntimeEventDraft {
                scope: text("bridge"),
                scope_id: text(agent),
                agent_name: Some(text(agent)),
                task_id: copy_text(task_id),
                session_id: session,
                actor_name: Some(text(agent)),
                event_type: text(event_type),
                summary: text(summary),
                reason: copy_text(reason),
                payload_json: Some(payload),
            },
        );
    }

    pub fn queue_bridge_delivery(
        &mut self,
        recipient: &str,
        kind: BridgeDeliveryKind,
        task: Option<TaskSummary>,
        decision: Option<DecisionSummary>,
        reason: Option<String>,
        now: Timestamp,
    )
        ensures
            final(self)@ == old(self)@.queue_bridge_delivery(
                recipient@,
                kind,
                view_opt(task),
                view_opt(decision),
                opt_text(reason),
                now,
            ),
    {
        let agent = match self.state.agents.get(recipient) {
            Some(agent) => agent,
            None => {
                return;
            },
        };
        let task_id = match &task {
            Some(t) => Some(t.task_id.clone()),
            None => None,
        };
        let decision_id = match &decision {
            Some(d) => Some(d.decision_id.clone()),
            None => None,
        };
        let mut q = self.queue_of(recipient);
        proof {
            crate::table::lemma_place(self@.bridge_queues, recipient@);
        }
        assert(q@.agent_name == recipient@);
        let id: u64 = q.next_delivery_id.saturating_add(1);
        let delivery = BridgeDelivery {
            delivery_id: id,
            agent: text(recipient),
            kind,
            task,
            decision,
            reason: copy_text(&reason),
            created_at: now,
        };
        let ghost before = q.pending@;
        let n: usize = q.pending.len();
        if n > 0 && q.pending[n - 1].delivery_id == id {
            q.pending.set(n - 1, delivery.dup());
        } else {
            q.pending.push(delivery.dup());
        }
        assert(views(q.pending@) =~= enqueued(views(before), delivery@));
        q.next_delivery_id = id;
        let mut updated = agent;
        updated.bridge_last_delivery_id = id;
        updated.bridge_pending_delivery_count = q.pending.len() as u32;
        self.bridge_queues.put(q);
        self.persist_agent(&updated);
        let summary = text("queued ").concat(kind.as_shown()).concat(" delivery ").concat(
            to_decimal(id).as_str(),
        );
        let payload = JsonObject::new().number("delivery_id", id).text("kind", kind.as_label()).opt_text(
            "task_id",
            &task_id,
        ).opt_text("decision_id", &decision_id).render();
        self.log_bridge(
            recipient,
            &task_id,
            None,
            "bridge_delivery_queued",
            summary.as_str(),
            &reason,
            payload,
        );
        match self.active_bridges.get(recipient) {
            Some(link) => {
                self.emit(
                    Effect::SendBridge {
                        session_id: link.session_id.clone(),
                        message: BridgeServerMessage::Delivery {
                            session_id: link.session_id.clone(),
                            delivery,
                        },
                    },
                );
            },
            None => {},
        }
    }

    pub fn sync_bridge_for_task(&mut self, task: &TaskSummary, reason: &str, now: Timestamp)
        ensures
            final(self)@ == old(self)@.sync_bridge_for_task(task@, reason@, now),
    {
        let decision = latest_decision_for_task(&self.state.decisions, task.task_id.as_str());
        let kind = match task.state {
            TaskState::Pending => BridgeDeliveryKind::TaskDispatch,
            TaskState::Reported => BridgeDeliveryKind::TaskFeedback,
            TaskState::BlockedWaitingDecision => BridgeDeliveryKind::TaskFeedback,
            TaskState::Cancelled => BridgeDeliveryKind::TaskCancelled,
            TaskState::Closed => BridgeDeliveryKind::TaskClosed,
            _ => {
                return;
            },
        };
        let recipient = if kind == BridgeDeliveryKind::TaskFeedback {
            task.from_agent.clone()
        } else {
            task.to_agent.clone()
        };
        self.queue_bridge_delivery(
            recipient.as_str(),
            kind,
            Some(task.dup()),
            decision,
            Some(text(reason)),
            now,
        );
    }
}

/// What a bridge is told when it has connected.
pub struct BridgeWelcome {
    pub session_id: String,
    pub snapshot: BridgeSyncSnapshot,
    pub pending_deliveries: Vec<BridgeDelivery>,
}

#[verifier::ext_equal]
pub struct WelcomeModel {
    pub session_id: Seq<char>,
    pub snapshot: SyncModel,
    pub pending_deliveries: Seq<DeliveryModel>,
}

impl View for BridgeWelcome {
    type V = WelcomeModel;

    open spec fn view(&self) -> WelcomeModel {
        WelcomeModel {
            session_id: self.session_id@,
            snapshot: self.snapshot@,
            pending_deliveries: views(self.pending_deliveries@),
        }
    }
}

/// One connection of a bridge: for which agent and session it last said hello.
pub struct BridgeConnection {
    pub agent: Option<String>,
    pub session_id: Option<String>,
}

#[verifier::ext_equal]
pub struct ConnectionModel {
    pub agent: Option<Seq<char>>,
    pub session_id: Option<Seq<char>>,
}

impl View for BridgeConnection {
    type V = ConnectionModel;

    open spec fn view(&self) -> ConnectionModel {
        ConnectionModel { agent: opt_text(self.agent), session_id: opt_text(self.session_id) }
    }
}

pub open spec fn bridge_error(message: Seq<char>) -> Option<BridgeServerModel> {
    Some(BridgeServerModel::Error { message })
}

/// The error as a reply; success has none.
pub open spec fn error_reply<T>(r: Result<T, Seq<char>>) -> Option<BridgeServerModel> {
    match r {
        Ok(_) => None,
        Err(message) => bridge_error(message),
    }
}

pub open spec fn json_opt_mode(mode: Option<BridgeMode>) -> JsonModel {
    match mode {
        Some(m) => JsonModel::Text(m.label()),
        None => JsonModel::Null,
    }
}

impl World {
    pub open spec fn validate_bridge_session(
        self,
        agent: Seq<char>,
        session_id: Seq<char>,
    ) -> Result<(), Seq<char>> {
        match found(self.active_bridges, agent) {
            None => Err("no active bridge session for agent "@ + agent),
            Some(link) => if link.session_id != session_id {
                Err(
                    "stale bridge session for agent "@ + agent + ": expected "@ + link.session_id
                        + ", got "@ + session_id,
                )
            } else {
                Ok(())
            },
        }
    }

    pub open spec fn touch_bridge_session(
        self,
        agent: Seq<char>,
        session_id: Seq<char>,
        now: Timestamp,
    ) -> (World, Result<AgentModel, Seq<char>>) {
        match self.validate_bridge_session(agent, session_id) {
            Err(e) => (self, Err(e)),
            Ok(_) => match known_agent(self, agent) {
                Err(e) => (self, Err(e)),
                Ok(a) => {
                    let updated = AgentModel {
                        bridge_state: BridgeConnectionState::Connected,
                        bridge_last_seen_at: Some(now),
                        last_heartbeat_at: Some(now),
                        ..a
                    };
                    (self.persist_agent(updated), Ok(updated))
                },
            },
        }
    }

    /// The deliveries up to the number leave the mailbox; a number that was not
    /// given out yet counts as the last one that was.
    pub open spec fn acknowledge_deliveries(
        self,
        agent: Seq<char>,
        session_id: Option<Seq<char>>,
        delivery_id: u64,
        now: Timestamp,
    ) -> (World, Result<AgentModel, Seq<char>>) {
        match (match session_id {
            Some(id) => self.validate_bridge_session(agent, id),
            None => Ok(()),
        }) {
            Err(e) => (self, Err(e)),
            Ok(_) => {
                let q = queue_or_new(self.bridge_queues, agent);
                let upto = if delivery_id < q.next_delivery_id {
                    delivery_id
                } else {
                    q.next_delivery_id
                };
                let pending = after_ack(q.pending, upto);
                let drained = World {
                    bridge_queues: put(self.bridge_queues, QueueModel { pending, ..q }),
                    ..self
                };
                match known_agent(drained, agent) {
                    Err(e) => (drained, Err(e)),
                    Ok(a) => {
                        let updated = AgentModel {
                            bridge_last_ack_delivery_id: if a.bridge_last_ack_delivery_id < upto {
                                upto
                            } else {
                                a.bridge_last_ack_delivery_id
                            },
                            bridge_pending_delivery_count: pending.len() as u32,
                            bridge_last_seen_at: Some(now),
                            last_heartbeat_at: Some(now),
                            ..a
                        };
                        let logged = drained.persist_agent(updated).log_bridge(
                            agent,
                            updated.current_task_id,
                            session_id,
                            "bridge_delivery_acked"@,
                            "acked deliveries through "@ + decimal(upto as nat),
                            None,
                            object_text(
                                no_fields().push(
                                    ("delivery_id"@, JsonModel::Number(delivery_id)),
                                ).push(("normalized_delivery_id"@, JsonModel::Number(upto))).push(
                                    (
                                        "pending_delivery_count"@,
                                        JsonModel::Number(
                                            updated.bridge_pending_delivery_count as u64,
                                        ),
                                    ),
                                ),
                            ),
                        );
                        (logged, Ok(updated))
                    },
                }
            },
        }
    }

    /// The agent's record says how its bridge is connected now.
    pub open spec fn update_bridge_presence(
        self,
        agent: Seq<char>,
        state: BridgeConnectionState,
        mode: Option<BridgeMode>,
        session_id: Option<Seq<char>>,
        now: Timestamp,
    ) -> (World, Result<AgentModel, Seq<char>>) {
        match known_agent(self, agent) {
            Err(e) => (self, Err(e)),
            Ok(a) => {
                let updated = AgentModel {
                    bridge_state: state,
                    bridge_mode: mode,
                    bridge_session_id: session_id,
                    bridge_last_seen_at: Some(now),
                    last_heartbeat_at: Some(now),
                    bridge_connected_at: if state == BridgeConnectionState::Connected {
                        Some(now)
                    } else {
                        a.bridge_connected_at
                    },
                    bridge_pending_delivery_count: self.pending_count(agent),
                    ..a
                };
                let logged = self.persist_agent(updated).log_bridge(
                    agent,
                    updated.current_task_id,
                    session_id,
                    if state == BridgeConnectionState::Connected {
                        "bridge_connected"@
                    } else {
                        "bridge_disconnected"@
                    },
                    "bridge "@ + a.bridge_state.shown() + " -> "@ + state.shown(),
                    Some("bridge_presence_changed"@),
                    object_text(
                        no_fields().push(
                            ("previous_state"@, JsonModel::Text(a.bridge_state.label())),
                        ).push(("state"@, JsonModel::Text(state.label()))).push(
                            ("previous_session_id"@, json_opt(a.bridge_session_id)),
                        ).push(("session_id"@, json_opt(session_id))).push(
                            ("previous_mode"@, json_opt_mode(a.bridge_mode)),
                        ).push(("mode"@, json_opt_mode(mode))).push(
                            (
                                "pending_delivery_count"@,
                                JsonModel::Number(updated.bridge_pending_delivery_count as u64),
                            ),
                        ),
                    ),
                );
                (logged, Ok(updated))
            },
        }
    }

    pub open spec fn bridge_snapshot(self, agent: Seq<char>) -> Result<SyncModel, Seq<char>> {
        match known_agent(self, agent) {
            Err(e) => Err(e),
            Ok(a) => {
                let current_task = match a.current_task_id {
                    Some(id) => self.task(id),
                    None => None,
                };
                Ok(
                    SyncModel {
                        agent: a,
                        current_task,
                        latest_decision: match current_task {
                            Some(t) => latest_decision(self.decisions, t.task_id),
                            None => None,
                        },
                    },
                )
            },
        }
    }

    /// A bridge says hello: its session replaces any earlier one of the agent,
    /// and it is given every delivery that is not acknowledged.
    pub open spec fn register_bridge(
        self,
        agent: Seq<char>,
        mode: BridgeMode,
        last_ack: Option<u64>,
        session_id: Seq<char>,
        now: Timestamp,
    ) -> (World, Result<WelcomeModel, Seq<char>>) {
        match known_agent(self, agent) {
            Err(e) => (self, Err(e)),
            Ok(a) => {
                let ready = self.ensure_bridge_queue(a);
                let acked = match last_ack {
                    Some(id) => ready.acknowledge_deliveries(agent, None, id, now),
                    None => (ready, Ok(a)),
                };
                match acked.1 {
                    Err(e) => (acked.0, Err(e)),
                    Ok(_) => {
                        let linked = World {
                            active_bridges: put(
                                acked.0.active_bridges,
                                LinkModel { agent_name: agent, session_id },
                            ),
                            ..acked.0
                        };
                        let shown = linked.update_bridge_presence(
                            agent,
                            BridgeConnectionState::Connected,
                            Some(mode),
                            Some(session_id),
                            now,
                        );
                        match shown.1 {
                            Err(e) => (shown.0, Err(e)),
                            Ok(_) => match shown.0.bridge_snapshot(agent) {
                                Err(e) => (shown.0, Err(e)),
                                Ok(snapshot) => (
                                    shown.0,
                                    Ok(
                                        WelcomeModel {
                                            session_id,
                                            snapshot,
                                            pending_deliveries: shown.0.pending_deliveries(agent),
                                        },
                                    ),
                                ),
                            },
                        }
                    },
                }
            },
        }
    }

    /// A bridge has gone. A session that another has replaced changes nothing.
    pub open spec fn disconnect_bridge(
        self,
        agent: Seq<char>,
        session_id: Seq<char>,
        now: Timestamp,
    ) -> World {
        match found(self.active_bridges, agent) {
            Some(link) => if link.session_id == session_id {
                World {
                    active_bridges: without(self.active_bridges, agent),
                    ..self
                }.update_bridge_presence(
                    agent,
                    BridgeConnectionState::Disconnected,
                    None,
                    None,
                    now,
                ).0
            } else {
                self
            },
            None => self,
        }
    }

    /// The connection is closed.
    pub open spec fn close_connection(self, c: ConnectionModel, now: Timestamp) -> World {
        match (c.agent, c.session_id) {
            (Some(agent), Some(session_id)) => self.disconnect_bridge(agent, session_id, now),
            _ => self,
        }
    }

    /// One message of a bridge, and the reply to it.
    pub open spec fn bridge_message(
        self,
        c: ConnectionModel,
        message: BridgeClientMessage,
        fresh: Seq<char>,
        now: Timestamp,
    ) -> (World, ConnectionModel, Option<BridgeServerModel>) {
        match message {
            BridgeClientMessage::Hello { agent, mode, last_ack_delivery_id } => {
                let left = self.close_connection(c, now);
                let joined = left.register_bridge(agent@, mode, last_ack_delivery_id, fresh, now);
                match joined.1 {
                    Ok(welcome) => (
                        joined.0,
                        ConnectionModel { agent: Some(agent@), session_id: Some(fresh) },
                        Some(
                            BridgeServerModel::Welcome {
                                session_id: welcome.session_id,
                                snapshot: welcome.snapshot,
                                pending_deliveries: welcome.pending_deliveries,
                            },
                        ),
                    ),
                    Err(e) => (joined.0, c, bridge_error(e)),
                }
            },
            BridgeClientMessage::Heartbeat { session_id } => match c.agent {
                None => (self, c, bridge_error("bridge heartbeat received before hello"@)),
                Some(agent) => {
                    let touched = self.touch_bridge_session(agent, session_id@, now);
                    (touched.0, c, error_reply(touched.1))
                },
            },
            BridgeClientMessage::DeliveryAck { session_id, delivery_id } => match c.agent {
                None => (self, c, bridge_error("bridge ack received before hello"@)),
                Some(agent) => {
                    let acked = self.acknowledge_deliveries(
                        agent,
                        Some(session_id@),
                        delivery_id,
                        now,
                    );
                    (acked.0, c, error_reply(acked.1))
                },
            },
            BridgeClientMessage::RequestSync { session_id } => match c.agent {
                None => (self, c, bridge_error("bridge sync requested before hello"@)),
                Some(agent) => match self.bridge_sync_message(
                    agent,
                    session_id@,
                    "manual_sync"@,
                ) {
                    Ok(m) => (self, c, Some(m)),
                    Err(e) => (self, c, bridge_error(e)),
                },
            },
            BridgeClientMessage::Ping => (self, c, Some(BridgeServerModel::Pong)),
        }
    }

    pub open spec fn bridge_sync_message(
        self,
        agent: Seq<char>,
        session_id: Seq<char>,
        reason: Seq<char>,
    ) -> Result<BridgeServerModel, Seq<char>> {
        match self.validate_bridge_session(agent, session_id) {
            Err(e) => Err(e),
            Ok(_) => match self.bridge_snapshot(agent) {
                Err(e) => Err(e),
                Ok(snapshot) => Ok(
                    BridgeServerModel::SyncSnapshot {
                        session_id,
                        reason,
                        snapshot,
                        pending_deliveries: self.pending_deliveries(agent),
                    },
                ),
            },
        }
    }
}

/// The deliveries with numbers above the given one.
fn keep_after(pending: &Vec<BridgeDelivery>, upto: u64) -> (r: Vec<BridgeDelivery>)
    ensures
        views(r@) == after_ack(views(pending@), upto),
{
    let mut out: Vec<BridgeDelivery> = Vec::new();
    let mut i: usize = 0;
    assert(views(out@) =~= views(pending@).take(0));
    while i < pending.len()
        invariant
            i <= pending.len(),
            views(out@) == after_ack(views(pending@).take(i as int), upto),
        decreases pending.len() - i,
    {
        let ghost before = out@;
        proof {
            let head = views(pending@).take(i + 1);
            assert(head.drop_last() =~= views(pending@).take(i as int));
            assert(head.last() == pending@[i as int]@);
        }
        if pending[i].delivery_id > upto {
            out.push(pending[i].dup());
            assert(views(out@) =~= views(before).push(pending@[i as int]@));
        }
        i += 1;
    }
    assert(views(pending@).take(i as int) =~= views(pending@));
    out
}

fn mode_value(mode: Option<BridgeMode>) -> (r: JsonValue)
    ensures
        r@ == json_opt_mode(mode),
{
    match mode {
        Some(m) => JsonValue::Text(text(m.as_label())),
        None => JsonValue::Null,
    }
}

impl AppShared {
    pub fn validate_bridge_session(&self, agent: &str, session_id: &str) -> (r: Result<(), Failure>)
        ensures
            seen(r) == self@.validate_bridge_session(agent@, session_id@),
    {
        match self.active_bridges.get(agent) {
            None => Err(
                Failure::new(text("no active bridge session for agent ").concat(agent)),
            ),
            Some(link) => if !same_text(link.session_id.as_str(), session_id) {
                Err(
                    Failure::new(
                        text("stale bridge session for agent ").concat(agent).concat(
                            ": expected ",
                        ).concat(link.session_id.as_str()).concat(", got ").concat(session_id),
                    ),
                )
            } else {
                Ok(())
            },
        }
    }

    pub fn touch_bridge_session(&mut self, agent: &str, session_id: &str, now: Timestamp) -> (r:
        Result<AgentSummary, Failure>)
        ensures
            (final(self)@, seen(r)) == old(self)@.touch_bridge_session(
                agent@,
                session_id@,
                now,
            ),
    {
        match self.validate_bridge_session(agent, session_id) {
            Err(e) => {
                return Err(e);
            },
            Ok(_) => {},
        }
        let mut updated = match self.registered_agent(agent) {
            Err(e) => {
                return Err(e);
            },
            Ok(a) => a,
        };
        updated.bridge_state = BridgeConnectionState::Connected;
        updated.bridge_last_seen_at = Some(now);
        updated.last_heartbeat_at = Some(now);
        self.persist_agent(&updated);
        Ok(updated)
    }

    pub fn acknowledge_bridge_deliveries(
        &mut self,
        agent: &str,
        session_id: Option<&str>,
        delivery_id: u64,
        now: Timestamp,
    ) -> (r: Result<AgentSummary, Failure>)
        ensures
            (final(self)@, seen(r)) == old(self)@.acknowledge_deliveries(
                agent@,
                opt_str(session_id),
                delivery_id,
                now,
            ),
    {
        match session_id {
            Some(id) => match self.validate_bridge_session(agent, id) {
                Err(e) => {
                    return Err(e);
                },
                Ok(_) => {},
            },
            None => {},
        }
        let mut q = self.queue_of(agent);
        let upto: u64 = if delivery_id < q.next_delivery_id {
            delivery_id
        } else {
            q.next_delivery_id
        };
        q.pending = keep_after(&q.pending, upto);
        let count: u32 = q.pending.len() as u32;
        self.bridge_queues.put(q);
        let mut updated = match self.registered_agent(agent) {
            Err(e) => {
                return Err(e);
            },
            Ok(a) => a,
        };
        if updated.bridge_last_ack_delivery_id < upto {
            updated.bridge_last_ack_delivery_id = upto;
        }
        updated.bridge_pending_delivery_count = count;
        updated.bridge_last_seen_at = Some(now);
        updated.last_heartbeat_at = Some(now);
        self.persist_agent(&updated);
        let summary = text("acked deliveries through ").concat(to_decimal(upto).as_str());
        let payload = JsonObject::new().number("delivery_id", delivery_id).number(
            "normalized_delivery_id",
            upto,
        ).number("pending_delivery_count", count as u64).render();
        self.log_bridge(
            agent,
            &updated.current_task_id,
            session_id,
            "bridge_delivery_acked",
            summary.as_str(),
            &None,
            payload,
        );
        Ok(updated)
    }

    pub fn update_agent_bridge_presence(
        &mut self,
        agent: &str,
        state: BridgeConnectionState,
        mode: Option<BridgeMode>,
        session_id: Option<String>,
        now: Timestamp,
    ) -> (r: Result<AgentSummary, Failure>)
        ensures
            (final(self)@, seen(r)) == old(self)@.update_bridge_presence(
                agent@,
                state,
                mode,
                opt_text(session_id),
                now,
            ),
    {
        let before = match self.registered_agent(agent) {
            Err(e) => {
                return Err(e);
            },
            Ok(a) => a,
        };
        let mut updated = before.dup();
        updated.bridge_state = state;
        updated.bridge_mode = mode;
        updated.bridge_session_id = copy_text(&session_id);
        updated.bridge_last_seen_at = Some(now);
        updated.last_heartbeat_at = Some(now);
        if state == BridgeConnectionState::Connected {
            updated.bridge_connected_at = Some(now);
        }
        updated.bridge_pending_delivery_count = self.bridge_pending_count(agent);
        self.persist_agent(&updated);
        let event_type = match state {
            BridgeConnectionState::Connected => "bridge_connected",
            BridgeConnectionState::Disconnected => "bridge_disconnected",
        };
        let summary = text("bridge ").concat(before.bridge_state.as_shown()).concat(
            " -> ",
        ).concat(state.as_shown());
        let payload = JsonObject::new().text(
            "previous_state",
            before.bridge_state.as_label(),
        ).text("state", state.as_label()).opt_text(
            "previous_session_id",
            &before.bridge_session_id,
        ).opt_text("session_id", &session_id).value(
            "previous_mode",
            mode_value(before.bridge_mode),
        ).value("mode", mode_value(mode)).number(
            "pending_delivery_count",
            updated.bridge_pending_delivery_count as u64,
        ).render();
        let session = match &session_id {
            Some(s) => Some(s.as_str()),
            None => None,
        };
        self.log_bridge(
            agent,
            &updated.current_task_id,
            session,
            event_type,
            summary.as_str(),
            &Some(text("bridge_presence_changed")),
            payload,
        );
        Ok(updated)
    }

    pub fn build_bridge_sync_snapshot(&self, agent: &str) -> (r: Result<BridgeSyncSnapshot, Failure>)
        ensures
            seen(r) == self@.bridge_snapshot(agent@),
    {
        let a = match self.registered_agent(agent) {
            Err(e) => {
                return Err(e);
            },
            Ok(a) => a,
        };
        let current_task = match &a.current_task_id {
            Some(id) => self.state.tasks.get(id.as_str()),
            None => None,
        };
        let latest = match &current_task {
            Some(t) => latest_decision_for_task(&self.state.decisions, t.task_id.as_str()),
            None => None,
        };
        Ok(BridgeSyncSnapshot { agent: a, current_task, latest_decision: latest })
    }

    pub fn build_bridge_sync_message(&self, agent: &str, session_id: &str, reason: &str) -> (r:
        Result<BridgeServerMessage, Failure>)
        ensures
            seen(r) == self@.bridge_sync_message(agent@, session_id@, reason@),
    {
        match self.validate_bridge_session(agent, session_id) {
            Err(e) => {
                return Err(e);
            },
            Ok(_) => {},
        }
        match self.build_bridge_sync_snapshot(agent) {
            Err(e) => Err(e),
            Ok(snapshot) => Ok(
                BridgeServerMessage::SyncSnapshot {
                    session_id: text(session_id),
                    reason: text(reason),
                    snapshot,
                    pending_deliveries: self.pending_bridge_deliveries(agent),
                },
            ),
        }
    }

    pub fn register_bridge_session(
        &mut self,
        agent: &str,
        mode: BridgeMode,
        last_ack_delivery_id: Option<u64>,
        session_id: &str,
        now: Timestamp,
    ) -> (r: Result<BridgeWelcome, Failure>)
        ensures
            (final(self)@, seen(r)) == old(self)@.register_bridge(
                agent@,
                mode,
                last_ack_delivery_id,
                session_id@,
                now,
            ),
    {
        let a = match self.registered_agent(agent) {
            Err(e) => {
                return Err(e);
            },
            Ok(a) => a,
        };
        self.ensure_bridge_queue_exists(&a);
        match last_ack_delivery_id {
            Some(id) => match self.acknowledge_bridge_deliveries(agent, None, id, now) {
                Err(e) => {
                    return Err(e);
                },
                Ok(_) => {},
            },
            None => {},
        }
        self.active_bridges.put(
            BridgeLink { agent_name: text(agent), session_id: text(session_id) },
        );
        match self.update_agent_bridge_presence(
            agent,
            BridgeConnectionState::Connected,
            Some(mode),
            Some(text(session_id)),
            now,
        ) {
            Err(e) => {
                return Err(e);
            },
            Ok(_) => {},
        }
        match self.build_bridge_sync_snapshot(agent) {
            Err(e) => Err(e),
            Ok(snapshot) => Ok(
                BridgeWelcome {
                    session_id: text(session_id),
                    snapshot,
                    pending_deliveries: self.pending_bridge_deliveries(agent),
                },
            ),
        }
    }

    pub fn disconnect_bridge_session(&mut self, agent: &str, session_id: &str, now: Timestamp)
        ensures
            final(self)@ == old(self)@.disconnect_bridge(agent@, session_id@, now),
    {
        let current = match self.active_bridges.get(agent) {
            Some(link) => same_text(link.session_id.as_str(), session_id),
            None => false,
        };
        if current {
            let _ = self.active_bridges.take(agent);
            let _ = self.update_agent_bridge_presence(
                agent,
                BridgeConnectionState::Disconnected,
                None,
                None,
                now,
            );
        }
    }

    pub fn close_bridge_connection(&mut self, connection: &BridgeConnection, now: Timestamp)
        ensures
            final(self)@ == old(self)@.close_connection(connection@, now),
    {
        match (&connection.agent, &connection.session_id) {
            (Some(agent), Some(session_id)) => {
                self.disconnect_bridge_session(agent.as_str(), session_id.as_str(), now);
            },
            _ => {},
        }
    }

    /// Handles one message of a bridge and gives the reply, if there is one.
    pub fn bridge_message(
        &mut self,
        connection: &mut BridgeConnection,
        message: BridgeClientMessage,
        fresh_session_id: &str,
        now: Timestamp,
    ) -> (r: Option<BridgeServerMessage>)
        ensures
            (final(self)@, final(connection)@, view_opt(r)) == old(self)@.bridge_message(
                old(connection)@,
                message,
                fresh_session_id@,
                now,
            ),
    {
        match message {
            BridgeClientMessage::Hello { agent, mode, last_ack_delivery_id } => {
                self.close_bridge_connection(connection, now);
                match self.register_bridge_session(
                    agent.as_str(),
                    mode,
                    last_ack_delivery_id,
                    fresh_session_id,
                    now,
                ) {
                    Ok(welcome) => {
                        connection.agent = Some(agent);
                        connection.session_id = Some(text(fresh_session_id));
                        Some(
                            BridgeServerMessage::Welcome {
                                session_id: welcome.session_id,
                                snapshot: welcome.snapshot,
                                pending_deliveries: welcome.pending_deliveries,
                            },
                        )
                    },
                    Err(e) => Some(BridgeServerMessage::Error { message: e.message }),
                }
            },
            BridgeClientMessage::Heartbeat { session_id } => match &connection.agent {
                None => Some(
                    BridgeServerMessage::Error {
                        message: text("bridge heartbeat received before hello"),
                    },
                ),
                Some(agent) => match self.touch_bridge_session(
                    agent.as_str(),
                    session_id.as_str(),
                    now,
                ) {
                    Ok(_) => None,
                    Err(e) => Some(BridgeServerMessage::Error { message: e.message }),
                },
            },
            BridgeClientMessage::DeliveryAck { session_id, delivery_id } => match &connection.agent {
                None => Some(
                    BridgeServerMessage::Error {
                        message: text("bridge ack received before hello"),
                    },
                ),
                Some(agent) => match self.acknowledge_bridge_deliveries(
                    agent.as_str(),
                    Some(session_id.as_str()),
                    delivery_id,
                    now,
                ) {
                    Ok(_) => None,
                    Err(e) => Some(BridgeServerMessage::Error { message: e.message }),
                },
            },
            BridgeClientMessage::RequestSync { session_id } => match &connection.agent {
                None => Some(
                    BridgeServerMessage::Error {
                        message: text("bridge sync requested before hello"),
                    },
                ),
                Some(agent) => match self.build_bridge_sync_message(
                    agent.as_str(),
                    session_id.as_str(),
                    "manual_sync",
                ) {
                    Ok(m) => Some(m),
                    Err(e) => Some(BridgeServerMessage::Error { message: e.message }),
                },
            },
            BridgeClientMessage::Ping => Some(BridgeServerMessage::Pong),
        }
    }
}

} // verus!
