//! The state of the daemon, the effects that it asks for, and the steps from
//! which its operations are made.
//!
//! An operation changes the state in memory and appends to the outbox, in order,
//! what is to be stored, published and sent.

use vstd::prelude::*;

use crate::failure::{seen, Failure};
use crate::models::{
    AgentModel, AgentSummary, BridgeDelivery, BridgeServerMessage, BridgeServerModel,
    DashboardEvent, DashboardModel, DecisionModel, DecisionSummary, DeliveryModel,
    RuntimeEventModel, RuntimeEventRecord, SessionModel, SessionSummary, StreamEventRecord,
    StreamModel, TaskModel, TaskState, TaskSummary,
};
use crate::table::{dup_all, found, put, views, Dup, Keyed, Record, Table};
use crate::text::{copy_text, opt_str, opt_text, text};
use crate::time::Timestamp;

verus! {

/// An entry for the event ledger, before the ledger has given it a number and a time.
#[derive(Debug)]
pub struct RuntimeEventDraft {
    pub scope: String,
    pub scope_id: String,
    pub agent_name: Option<String>,
    pub task_id: Option<String>,
    pub session_id: Option<String>,
    pub actor_name: Option<String>,
    pub event_type: String,
    pub summary: String,
    pub reason: Option<String>,
    pub payload_json: Option<String>,
}

#[verifier::ext_equal]
pub struct EventDraftModel {
    pub scope: Seq<char>,
    pub scope_id: Seq<char>,
    pub agent_name: Option<Seq<char>>,
    pub task_id: Option<Seq<char>>,
    pub session_id: Option<Seq<char>>,
    pub actor_name: Option<Seq<char>>,
    pub event_type: Seq<char>,
    pub summary: Seq<char>,
    pub reason: Option<Seq<char>>,
    pub payload_json: Option<Seq<char>>,
}

impl View for RuntimeEventDraft {
    type V = EventDraftModel;

    open spec fn view(&self) -> EventDraftModel {
        EventDraftModel {
            scope: self.scope@,
            scope_id: self.scope_id@,
            agent_name: opt_text(self.agent_name),
            task_id: opt_text(self.task_id),
            session_id: opt_text(self.session_id),
            actor_name: opt_text(self.actor_name),
            event_type: self.event_type@,
            summary: self.summary@,
            reason: opt_text(self.reason),
            payload_json: opt_text(self.payload_json),
        }
    }
}

impl Dup for RuntimeEventDraft {
    fn dup(&self) -> RuntimeEventDraft {
        RuntimeEventDraft {
            scope: self.scope.clone(),
            scope_id: self.scope_id.clone(),
            agent_name: copy_text(&self.agent_name),
            task_id: copy_text(&self.task_id),
            session_id: copy_text(&self.session_id),
            actor_name: copy_text(&self.actor_name),
            event_type: self.event_type.clone(),
            summary: self.summary.clone(),
            reason: copy_text(&self.reason),
            payload_json: copy_text(&self.payload_json),
        }
    }
}

/// A running round that can be stopped.
#[derive(Debug)]
pub struct LiveSession {
    pub session_id: String,
    pub agent_name: String,
}

#[verifier::ext_equal]
pub struct LiveModel {
    pub session_id: Seq<char>,
    pub agent_name: Seq<char>,
}

impl View for LiveSession {
    type V = LiveModel;

    open spec fn view(&self) -> LiveModel {
        LiveModel {
            session_id: self.session_id@,
            agent_name: self.agent_name@,
        }
    }
}

impl Dup for LiveSession {
    fn dup(&self) -> LiveSession {
        LiveSession {
            session_id: self.session_id.clone(),
            agent_name: self.agent_name.clone(),
        }
    }
}

impl Keyed for LiveModel {
    open spec fn key(self) -> Seq<char> {
        self.session_id
    }
}

impl Record for LiveSession {
    fn key(&self) -> &str {
        self.session_id.as_str()
    }
}

/// A running app server that the daemon started for an agent.
#[derive(Debug)]
pub struct ManagedSession {
    pub agent_name: String,
    pub session_id: String,
}

#[verifier::ext_equal]
pub struct ManagedModel {
    pub agent_name: Seq<char>,
    pub session_id: Seq<char>,
}

impl View for ManagedSession {
    type V = ManagedModel;

    open spec fn view(&self) -> ManagedModel {
        ManagedModel {
            agent_name: self.agent_name@,
            session_id: self.session_id@,
        }
    }
}

impl Dup for ManagedSession {
    fn dup(&self) -> ManagedSession {
        ManagedSession {
            agent_name: self.agent_name.clone(),
            session_id: self.session_id.clone(),
        }
    }
}

impl Keyed for ManagedModel {
    open spec fn key(self) -> Seq<char> {
        self.agent_name
    }
}

impl Record for ManagedSession {
    fn key(&self) -> &str {
        self.agent_name.as_str()
    }
}

/// The bridge session that an agent is connected through.
#[derive(Debug)]
pub struct BridgeLink {
    pub agent_name: String,
    pub session_id: String,
}

#[verifier::ext_equal]
pub struct LinkModel {
    pub agent_name: Seq<char>,
    pub session_id: Seq<char>,
}

impl View for BridgeLink {
    type V = LinkModel;

    open spec fn view(&self) -> LinkModel {
        LinkModel {
            agent_name: self.agent_name@,
            session_id: self.session_id@,
        }
    }
}

impl Dup for BridgeLink {
    fn dup(&self) -> BridgeLink {
        BridgeLink {
            agent_name: self.agent_name.clone(),
            session_id: self.session_id.clone(),
        }
    }
}

impl Keyed for LinkModel {
    open spec fn key(self) -> Seq<char> {
        self.agent_name
    }
}

impl Record for BridgeLink {
    fn key(&self) -> &str {
        self.agent_name.as_str()
    }
}

/// The mailbox of an agent.
#[derive(Debug)]
pub struct BridgeDeliveryQueue {
    pub agent_name: String,
    pub next_delivery_id: u64,
    pub pending: Vec<BridgeDelivery>,
}

#[verifier::ext_equal]
pub struct QueueModel {
    pub agent_name: Seq<char>,
    pub next_delivery_id: u64,
    pub pending: Seq<DeliveryModel>,
}

impl View for BridgeDeliveryQueue {
    type V = QueueModel;

    open spec fn view(&self) -> QueueModel {
        QueueModel {
            agent_name: self.agent_name@,
            next_delivery_id: self.next_delivery_id,
            pending: views(self.pending@),
        }
    }
}

impl Dup for BridgeDeliveryQueue {
    fn dup(&self) -> BridgeDeliveryQueue {
        BridgeDeliveryQueue {
            agent_name: self.agent_name.clone(),
            next_delivery_id: self.next_delivery_id,
            pending: dup_all(&self.pending),
        }
    }
}

impl Keyed for QueueModel {
    open spec fn key(self) -> Seq<char> {
        self.agent_name
    }
}

impl Record for BridgeDeliveryQueue {
    fn key(&self) -> &str {
        self.agent_name.as_str()
    }
}

/// Something that the daemon asks of the world around it.
#[allow(inconsistent_fields)]
#[derive(Debug)]
pub enum Effect {
    SaveAgent { agent: AgentSummary },
    InsertTask { task: TaskSummary },
    UpdateTask { task: TaskSummary },
    InsertTaskEvent { task_id: String, event_type: String, from_state: Option<TaskState>, to_state: Option<TaskState>, payload: String },
    InsertDecision { decision: DecisionSummary },
    AcknowledgeDecision { decision: DecisionSummary },
    SaveSession { session: SessionSummary },
    AppendStream { session_id: Option<String>, agent: String, stream: String, content: String },
    AppendRuntimeEvent { event: RuntimeEventDraft },
    Publish { event: DashboardEvent },
    PublishSnapshot,
    SendBridge { session_id: String, message: BridgeServerMessage },
}

#[allow(inconsistent_fields)]
#[verifier::ext_equal]
pub enum EffectModel {
    SaveAgent { agent: AgentModel },
    InsertTask { task: TaskModel },
    UpdateTask { task: TaskModel },
    InsertTaskEvent { task_id: Seq<char>, event_type: Seq<char>, from_state: Option<TaskState>, to_state: Option<TaskState>, payload: Seq<char> },
    InsertDecision { decision: DecisionModel },
    AcknowledgeDecision { decision: DecisionModel },
    SaveSession { session: SessionModel },
    AppendStream { session_id: Option<Seq<char>>, agent: Seq<char>, stream: Seq<char>, content: Seq<char> },
    AppendRuntimeEvent { event: EventDraftModel },
    Publish { event: DashboardModel },
    PublishSnapshot,
    SendBridge { session_id: Seq<char>, message: BridgeServerModel },
}

impl View for Effect {
    type V = EffectModel;

    open spec fn view(&self) -> EffectModel {
        match *self {
            Effect::SaveAgent { agent } => EffectModel::SaveAgent { agent: agent@ },
            Effect::InsertTask { task } => EffectModel::InsertTask { task: task@ },
            Effect::UpdateTask { task } => EffectModel::UpdateTask { task: task@ },
            Effect::InsertTaskEvent { task_id, event_type, from_state, to_state, payload } => EffectModel::InsertTaskEvent { task_id: task_id@, event_type: event_type@, from_state, to_state, payload: payload@ },
            Effect::InsertDecision { decision } => EffectModel::InsertDecision { decision: decision@ },
            Effect::AcknowledgeDecision { decision } => EffectModel::AcknowledgeDecision { decision: decision@ },
            Effect::SaveSession { session } => EffectModel::SaveSession { session: session@ },
            Effect::AppendStream { session_id, agent, stream, content } => EffectModel::AppendStream { session_id: opt_text(session_id), agent: agent@, stream: stream@, content: content@ },
            Effect::AppendRuntimeEvent { event } => EffectModel::AppendRuntimeEvent { event: event@ },
            Effect::Publish { event } => EffectModel::Publish { event: event@ },
            Effect::PublishSnapshot => EffectModel::PublishSnapshot,
            Effect::SendBridge { session_id, message } => EffectModel::SendBridge { session_id: session_id@, message: message@ },
        }
    }
}

pub const MAX_RECENT_STREAMS: usize = 500;

pub const MAX_RECENT_RUNTIME_EVENTS: usize = 500;

/// The newest entries of a list, as many as the limit allows.
pub open spec fn newest<A>(s: Seq<A>, limit: nat) -> Seq<A> {
    if s.len() > limit {
        s.skip(s.len() - limit)
    } else {
        s
    }
}

/// The tables and the recent history.
pub struct RuntimeState {
    pub agents: Table<AgentSummary>,
    pub tasks: Table<TaskSummary>,
    pub decisions: Table<DecisionSummary>,
    pub sessions: Table<SessionSummary>,
    pub recent_streams: Vec<StreamEventRecord>,
    pub recent_runtime_events: Vec<RuntimeEventRecord>,
}

/// Everything that the daemon holds in memory, and the outbox.
pub struct AppShared {
    pub state: RuntimeState,
    pub active_sessions: Table<LiveSession>,
    pub active_managed_sessions: Table<ManagedSession>,
    pub active_bridges: Table<BridgeLink>,
    pub bridge_queues: Table<BridgeDeliveryQueue>,
    pub outbox: Vec<Effect>,
}

/// The model of the daemon.
#[verifier::ext_equal]
pub struct World {
    pub agents: Seq<AgentModel>,
    pub tasks: Seq<TaskModel>,
    pub decisions: Seq<DecisionModel>,
    pub sessions: Seq<SessionModel>,
    pub recent_streams: Seq<StreamModel>,
    pub recent_runtime_events: Seq<RuntimeEventModel>,
    pub active_sessions: Seq<LiveModel>,
    pub active_managed_sessions: Seq<ManagedModel>,
    pub active_bridges: Seq<LinkModel>,
    pub bridge_queues: Seq<QueueModel>,
    pub outbox: Seq<EffectModel>,
}

impl View for AppShared {
    type V = World;

    open spec fn view(&self) -> World {
        World {
            agents: self.state.agents@,
            tasks: self.state.tasks@,
            decisions: self.state.decisions@,
            sessions: self.state.sessions@,
            recent_streams: views(self.state.recent_streams@),
            recent_runtime_events: views(self.state.recent_runtime_events@),
            active_sessions: self.active_sessions@,
            active_managed_sessions: self.active_managed_sessions@,
            active_bridges: self.active_bridges@,
            bridge_queues: self.bridge_queues@,
            outbox: views(self.outbox@),
        }
    }
}

impl World {
    pub open spec fn agent(self, name: Seq<char>) -> Option<AgentModel> {
        found(self.agents, name)
    }

    pub open spec fn task(self, id: Seq<char>) -> Option<TaskModel> {
        found(self.tasks, id)
    }

    pub open spec fn session(self, id: Seq<char>) -> Option<SessionModel> {
        found(self.sessions, id)
    }

    pub open spec fn emit(self, effect: EffectModel) -> World {
        World { outbox: self.outbox.push(effect), ..self }
    }

    pub open spec fn publish(self, event: DashboardModel) -> World {
        self.emit(EffectModel::Publish { event })
    }

    pub open spec fn log(self, event: EventDraftModel) -> World {
        self.emit(EffectModel::AppendRuntimeEvent { event })
    }

    /// The agent's record is stored, kept and published.
    pub open spec fn persist_agent(self, agent: AgentModel) -> World {
        let stored = self.emit(EffectModel::SaveAgent { agent });
        let kept = World { agents: put(stored.agents, agent), ..stored };
        kept.publish(DashboardModel::AgentStateChanged { agent })
    }

    /// The task's record is stored, kept and published.
    pub open spec fn persist_task(self, task: TaskModel, event_type: Seq<char>) -> World {
        let stored = self.emit(EffectModel::UpdateTask { task });
        let kept = World { tasks: put(stored.tasks, task), ..stored };
        kept.publish(DashboardModel::TaskEvent { task, event_type })
    }

    /// The session's time of last output is moved.
    pub open spec fn touch_session_output(self, session_id: Seq<char>, at: Timestamp) -> World {
        match self.session(session_id) {
            None => self,
            Some(session) => {
                let updated = SessionModel { last_output_at: Some(at), ..session };
                let stored = self.emit(EffectModel::SaveSession { session: updated });
                World { sessions: put(stored.sessions, updated), ..stored }
            },
        }
    }

    /// A line of an agent is stored, kept among the newest and published.
    pub open spec fn record_stream(
        self,
        session_id: Option<Seq<char>>,
        agent: Seq<char>,
        stream: Seq<char>,
        content: Seq<char>,
        now: Timestamp,
    ) -> World {
        let event = StreamModel { session_id, agent, stream, content, at: now };
        let stored = self.emit(EffectModel::AppendStream { session_id, agent, stream, content });
        let touched = match session_id {
            Some(id) => stored.touch_session_output(id, now),
            None => stored,
        };
        let kept = World {
            recent_streams: newest(
                touched.recent_streams.push(event),
                MAX_RECENT_STREAMS as nat,
            ),
            ..touched
        };
        kept.publish(DashboardModel::StreamChunk { event })
    }

    /// A line that the daemon writes in an agent's name.
    pub open spec fn say(self, agent: Seq<char>, content: Seq<char>, now: Timestamp) -> World {
        self.record_stream(None, agent, "stdout"@, content, now)
    }

    /// An entry of the ledger is kept among the newest.
    pub open spec fn remember_event(self, event: RuntimeEventModel) -> World {
        World {
            recent_runtime_events: newest(
                self.recent_runtime_events.push(event),
                MAX_RECENT_RUNTIME_EVENTS as nat,
            ),
            ..self
        }
    }

    /// A ledger entry on an agent, by that agent.
    pub open spec fn log_agent(
        self,
        agent: Seq<char>,
        task_id: Option<Seq<char>>,
        session_id: Option<Seq<char>>,
        event_type: Seq<char>,
        summary: Seq<char>,
        reason: Seq<char>,
        payload: Option<Seq<char>>,
    ) -> World {
        self.log(
            EventDraftModel {
                scope: "agent"@,
                scope_id: agent,
                agent_name: Some(agent),
                task_id,
                session_id,
                actor_name: Some(agent),
                event_type,
                summary,
                reason: Some(reason),
                payload_json: payload,
            },
        )
    }

    /// A ledger entry on a task.
    pub open spec fn log_task(
        self,
        task: TaskModel,
        actor: Option<Seq<char>>,
        event_type: Seq<char>,
        summary: Seq<char>,
        reason: Option<Seq<char>>,
        payload: Seq<char>,
    ) -> World {
        self.log(
            EventDraftModel {
                scope: "task"@,
                scope_id: task.task_id,
                agent_name: Some(task.to_agent),
                task_id: Some(task.task_id),
                session_id: None,
                actor_name: actor,
                event_type,
                summary,
                reason,
                payload_json: Some(payload),
            },
        )
    }
}

/// Drops the oldest entries of a list that is longer than the limit.
fn keep_newest<T>(v: &mut Vec<T>, limit: usize)
    ensures
        final(v)@ == newest(old(v)@, limit as nat),
{
    if v.len() > limit {
        let at: usize = v.len() - limit;
        let tail = v.split_off(at);
        *v = tail;
    }
}

impl AppShared {
    /// A copy of everything but the outbox, to go back to where the effects cannot be
    /// performed.
    pub fn copy_records(&self) -> (r: AppShared)
        ensures
            r@ == (World { outbox: Seq::empty(), ..self@ }),
    {
        let r = AppShared {
            state: RuntimeState {
                agents: self.state.agents.dup(),
                tasks: self.state.tasks.dup(),
                decisions: self.state.decisions.dup(),
                sessions: self.state.sessions.dup(),
                recent_streams: dup_all(&self.state.recent_streams),
                recent_runtime_events: dup_all(&self.state.recent_runtime_events),
            },
            active_sessions: self.active_sessions.dup(),
            active_managed_sessions: self.active_managed_sessions.dup(),
            active_bridges: self.active_bridges.dup(),
            bridge_queues: self.bridge_queues.dup(),
            outbox: Vec::new(),
        };
        assert(r@ =~= World { outbox: Seq::empty(), ..self@ });
        r
    }

    pub fn emit(&mut self, effect: Effect)
        ensures
            final(self)@ == old(self)@.emit(effect@),
    {
        let ghost before = self.outbox@;
        self.outbox.push(effect);
        assert(views(self.outbox@) =~= views(before).push(effect@));
    }

    pub fn publish(&mut self, event: DashboardEvent)
        ensures
            final(self)@ == old(self)@.publish(event@),
    {
        self.emit(Effect::Publish { event });
    }

    pub fn log(&mut self, event: RuntimeEventDraft)
        ensures
            final(self)@ == old(self)@.log(event@),
    {
        self.emit(Effect::AppendRuntimeEvent { event });
    }

    pub fn persist_agent(&mut self, agent: &AgentSummary)
        ensures
            final(self)@ == old(self)@.persist_agent(agent@),
    {
        self.emit(Effect::SaveAgent { agent: agent.dup() });
        self.state.agents.put(agent.dup());
        self.publish(DashboardEvent::AgentStateChanged { agent: agent.dup() });
    }

    pub fn persist_task(&mut self, task: &TaskSummary, event_type: &str)
        ensures
            final(self)@ == old(self)@.persist_task(task@, event_type@),
    {
        self.emit(Effect::UpdateTask { task: task.dup() });
        self.state.tasks.put(task.dup());
        self.publish(DashboardEvent::TaskEvent { task: task.dup(), event_type: text(event_type) });
    }

    pub fn touch_session_output(&mut self, session_id: &str, at: Timestamp)
        ensures
            final(self)@ == old(self)@.touch_session_output(session_id@, at),
    {
        match self.state.sessions.get(session_id) {
            None => {},
            Some(session) => {
                let mut updated = session;
                updated.last_output_at = Some(at);
                self.emit(Effect::SaveSession { session: updated.dup() });
                self.state.sessions.put(updated);
            },
        }
    }

    pub fn record_stream(
        &mut self,
        session_id: Option<&str>,
        agent: &str,
        stream: &str,
        content: &str,
        now: Timestamp,
    )
        ensures
            final(self)@ == old(self)@.record_stream(
                opt_str(session_id),
                agent@,
                stream@,
                content@,
                now,
            ),
    {
        let session = match session_id {
            Some(id) => Some(text(id)),
            None => None,
        };
        let event = StreamEventRecord {
            session_id: copy_text(&session),
            agent: text(agent),
            stream: text(stream),
            content: text(content),
            at: now,
        };
        self.emit(
            Effect::AppendStream {
                session_id: session,
                agent: text(agent),
                stream: text(stream),
                content: text(content),
            },
        );
        match session_id {
            Some(id) => self.touch_session_output(id, now),
            None => {},
        }
        let ghost before = self.state.recent_streams@;
        self.state.recent_streams.push(event.dup());
        assert(views(self.state.recent_streams@) =~= views(before).push(event@));
        let ghost grown = self.state.recent_streams@;
        keep_newest(&mut self.state.recent_streams, MAX_RECENT_STREAMS);
        assert(views(self.state.recent_streams@) =~= newest(
            views(grown),
            MAX_RECENT_STREAMS as nat,
        ));
        self.publish(DashboardEvent::StreamChunk { event });
    }

    pub fn say(&mut self, agent: &str, content: &str, now: Timestamp)
        ensures
            final(self)@ == old(self)@.say(agent@, content@, now),
    {
        self.record_stream(None, agent, "stdout", content, now);
    }

    pub fn remember_event(&mut self, event: RuntimeEventRecord)
        ensures
            final(self)@ == old(self)@.remember_event(event@),
    {
        let ghost before = self.state.recent_runtime_events@;
        self.state.recent_runtime_events.push(event);
        assert(views(self.state.recent_runtime_events@) =~= views(before).push(event@));
        let ghost grown = self.state.recent_runtime_events@;
        keep_newest(&mut self.state.recent_runtime_events, MAX_RECENT_RUNTIME_EVENTS);
        assert(views(self.state.recent_runtime_events@) =~= newest(
            views(grown),
            MAX_RECENT_RUNTIME_EVENTS as nat,
        ));
    }

    pub fn log_agent(
        &mut self,
        agent: &str,
        task_id: &Option<String>,
        session_id: Option<&str>,
        event_type: &str,
        summary: &str,
        reason: &str,
        payload: Option<String>,
    )
        ensures
            final(self)@ == old(self)@.log_agent(
                agent@,
                opt_text(*task_id),
                opt_str(session_id),
                event_type@,
                summary@,
                reason@,
                opt_text(payload),
            ),
    {
        let session = match session_id {
            Some(id) => Some(text(id)),
            None => None,
        };
        self.log(
            RuntimeEventDraft {
                scope: text("agent"),
                scope_id: text(agent),
                agent_name: Some(text(agent)),
                task_id: copy_text(task_id),
                session_id: session,
                actor_name: Some(text(agent)),
                event_type: text(event_type),
                summary: text(summary),
                reason: Some(text(reason)),
                payload_json: payload,
            },
        );
    }

    pub fn log_task(
        &mut self,
        task: &TaskSummary,
        actor: Option<&str>,
        event_type: &str,
        summary: &str,
        reason: Option<&str>,
        payload: String,
    )
        ensures
            final(self)@ == old(self)@.log_task(
                task@,
                opt_str(actor),
                event_type@,
                summary@,
                opt_str(reason),
                payload@,
            ),
    {
        let actor_name = match actor {
            Some(s) => Some(text(s)),
            None => None,
        };
        let reason = match reason {
            Some(s) => Some(text(s)),
            None => None,
        };
        self.log(
            RuntimeEventDraft {
                scope: text("task"),
                scope_id: task.task_id.clone(),
                agent_name: Some(task.to_agent.clone()),
                task_id: Some(task.task_id.clone()),
                session_id: None,
                actor_name,
                event_type: text(event_type),
                summary: text(summary),
                reason,
                payload_json: Some(payload),
            },
        );
    }

    /// The record of an agent, or the failure that says it is not registered.
    pub fn registered_agent(&self, name: &str) -> (r: Result<AgentSummary, Failure>)
        ensures
            seen(r) == known_agent(self@, name@),
    {
        match self.state.agents.get(name) {
            Some(agent) => Ok(agent),
            None => Err(Failure::new(text("agent not registered: ").concat(name))),
        }
    }

    /// The record of a task, or the failure that says there is none.
    pub fn known_task(&self, task_id: &str) -> (r: Result<TaskSummary, Failure>)
        ensures
            seen(r) == known_task(self@, task_id@),
    {
        match self.state.tasks.get(task_id) {
            Some(task) => Ok(task),
            None => Err(Failure::new(text("task not found: ").concat(task_id))),
        }
    }
}

pub open spec fn known_agent(w: World, name: Seq<char>) -> Result<AgentModel, Seq<char>> {
    match w.agent(name) {
        Some(agent) => Ok(agent),
        None => Err("agent not registered: "@ + name),
    }
}

pub open spec fn known_task(w: World, task_id: Seq<char>) -> Result<TaskModel, Seq<char>> {
    match w.task(task_id) {
        Some(task) => Ok(task),
        None => Err("task not found: "@ + task_id),
    }
}

} // verus!
