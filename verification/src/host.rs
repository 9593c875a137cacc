//! The bridge client of one agent: what it knows, and what it does about the
//! messages of the daemon.

use vstd::prelude::*;

use crate::failure::{seen, Failure};
use crate::models::{
    AgentModel, AgentSummary, BridgeClientMessage, BridgeDelivery, BridgeDeliveryKind,
    BridgeMode, BridgeServerMessage, BridgeServerModel, BridgeSyncSnapshot, DeliveryModel,
    SyncModel, TaskModel, TaskRoundPayload, TaskRoundStatus, TaskState, TaskSummary,
};
use crate::order::{rank_all, ranked, Rank, Ranked};
use crate::table::{view_opt, views, Dup};
use crate::text::{decimal, opt_text, same_text, text, texts, to_decimal};

verus! {

/// What the bridge client knows of its agent.
pub struct LocalState {
    pub agent: Option<AgentSummary>,
    pub current_task: Option<TaskSummary>,
    pub session_id: Option<String>,
    pub last_ack_delivery_id: u64,
}

#[verifier::ext_equal]
pub struct LocalModel {
    pub agent: Option<AgentModel>,
    pub current_task: Option<TaskModel>,
    pub session_id: Option<Seq<char>>,
    pub last_ack_delivery_id: u64,
}

impl View for LocalState {
    type V = LocalModel;

    open spec fn view(&self) -> LocalModel {
        LocalModel {
            agent: view_opt(self.agent),
            current_task: view_opt(self.current_task),
            session_id: opt_text(self.session_id),
            last_ack_delivery_id: self.last_ack_delivery_id,
        }
    }
}

/// Deliveries come in the order of their numbers.
impl Ranked for DeliveryModel {
    open spec fn not_after(self, other: Self) -> bool {
        self.delivery_id <= other.delivery_id
    }

    proof fn ranks(a: Self, b: Self, c: Self) {
    }
}

impl Rank for BridgeDelivery {
    fn is_not_after(&self, other: &Self) -> bool {
        self.delivery_id <= other.delivery_id
    }
}

/// What is to be done about a message: lines to show, and deliveries to process
/// one after another on the session.
pub struct HostStep {
    pub lines: Vec<String>,
    pub session_id: String,
    pub deliveries: Vec<BridgeDelivery>,
}

#[verifier::ext_equal]
pub struct HostStepModel {
    pub lines: Seq<Seq<char>>,
    pub session_id: Seq<char>,
    pub deliveries: Seq<DeliveryModel>,
}

impl View for HostStep {
    type V = HostStepModel;

    open spec fn view(&self) -> HostStepModel {
        HostStepModel {
            lines: texts(self.lines@),
            session_id: self.session_id@,
            deliveries: views(self.deliveries@),
        }
    }
}

/// The line that shows a snapshot.
pub open spec fn snapshot_line(snapshot: SyncModel) -> Seq<char> {
    "[agenthost] snapshot | agent="@ + snapshot.agent.name + " | bridge="@
        + snapshot.agent.bridge_state.shown() + " | task="@ + (match snapshot.current_task {
        Some(task) => task.task_id + ":"@ + task.state.shown(),
        None => "-"@,
    })
}

fn show_snapshot(snapshot: &BridgeSyncSnapshot) -> (r: String)
    ensures
        r@ == snapshot_line(snapshot@),
{
    let task = match &snapshot.current_task {
        Some(task) => text(task.task_id.as_str()).concat(":").concat(task.state.as_shown()),
        None => text("-"),
    };
    text("[agenthost] snapshot | agent=").concat(snapshot.agent.name.as_str()).concat(
        " | bridge=",
    ).concat(snapshot.agent.bridge_state.as_shown()).concat(" | task=").concat(task.as_str())
}

impl LocalModel {
    pub open spec fn synced(self, session_id: Seq<char>, snapshot: SyncModel) -> LocalModel {
        LocalModel {
            session_id: Some(session_id),
            agent: Some(snapshot.agent),
            current_task: snapshot.current_task,
            ..self
        }
    }

    /// A message of the daemon for the agent of that name.
    pub open spec fn receive(self, agent: Seq<char>, message: BridgeServerModel) -> (
        LocalModel,
        Result<HostStepModel, Seq<char>>,
    ) {
        match message {
            BridgeServerModel::Welcome { session_id, snapshot, pending_deliveries } => (
                self.synced(session_id, snapshot),
                Ok(
                    HostStepModel {
                        lines: Seq::empty().push(snapshot_line(snapshot)).push(
                            "[agenthost] bridge attached | agent="@ + agent + " | session="@
                                + session_id + " | pending="@ + decimal(pending_deliveries.len()),
                        ),
                        session_id,
                        deliveries: ranked(pending_deliveries),
                    },
                ),
            ),
            BridgeServerModel::SyncSnapshot {
                session_id,
                reason,
                snapshot,
                pending_deliveries,
            } => (
                self.synced(session_id, snapshot),
                Ok(
                    HostStepModel {
                        lines: Seq::empty().push(snapshot_line(snapshot)).push(
                            "[agenthost] sync snapshot | agent="@ + agent + " | reason="@ + reason
                                + " | pending="@ + decimal(pending_deliveries.len()),
                        ),
                        session_id,
                        deliveries: ranked(pending_deliveries),
                    },
                ),
            ),
            BridgeServerModel::Delivery { session_id, delivery } => (
                self,
                match self.session_check(agent, session_id) {
                    Ok(_) => Ok(
                        HostStepModel {
                            lines: Seq::empty(),
                            session_id,
                            deliveries: Seq::empty().push(delivery),
                        },
                    ),
                    Err(e) => Err(e),
                },
            ),
            BridgeServerModel::Error { message } => (
                self,
                Err("bridge server error: "@ + message),
            ),
            BridgeServerModel::Pong => (
                self,
                Ok(
                    HostStepModel {
                        lines: Seq::empty(),
                        session_id: ""@,
                        deliveries: Seq::empty(),
                    },
                ),
            ),
        }
    }

    /// A delivery counts only on the session that the daemon opened last.
    pub open spec fn session_check(self, agent: Seq<char>, session_id: Seq<char>) -> Result<
        (),
        Seq<char>,
    > {
        match self.session_id {
            Some(active) => if active == session_id {
                Ok(())
            } else {
                Err(
                    "stale bridge session for agent "@ + agent + ": expected "@ + active
                        + ", got "@ + session_id,
                )
            },
            None => Err("received bridge delivery before welcome for agent "@ + agent),
        }
    }

    /// The task of the delivery becomes the current one.
    pub open spec fn taken(self, delivery: DeliveryModel) -> LocalModel {
        LocalModel {
            current_task: match delivery.task {
                Some(task) => Some(task),
                None => self.current_task,
            },
            ..self
        }
    }

    /// The delivery has been processed.
    pub open spec fn acknowledged(self, delivery: DeliveryModel) -> LocalModel {
        LocalModel {
            last_ack_delivery_id: if delivery.delivery_id > self.last_ack_delivery_id {
                delivery.delivery_id
            } else {
                self.last_ack_delivery_id
            },
            ..self
        }
    }
}

/// The line that shows a delivery.
pub open spec fn delivery_line(delivery: DeliveryModel) -> Seq<char> {
    "[agenthost] delivery "@ + decimal(delivery.delivery_id as nat) + " | kind="@
        + delivery.kind.shown() + " | "@ + described(delivery)
}

pub open spec fn described(delivery: DeliveryModel) -> Seq<char> {
    let task = match delivery.task {
        Some(t) => "task="@ + t.task_id + " state="@ + t.state.shown(),
        None => "task=-"@,
    };
    let decision = match delivery.decision {
        Some(d) => "decision="@ + d.decision_id + " status="@ + d.status,
        None => "decision=-"@,
    };
    let reason = match delivery.reason {
        Some(s) => "reason="@ + s,
        None => "reason=-"@,
    };
    task + " | "@ + decision + " | "@ + reason
}

pub fn describe_delivery(delivery: &BridgeDelivery) -> (r: String)
    ensures
        r@ == described(delivery@),
{
    let task = match &delivery.task {
        Some(t) => text("task=").concat(t.task_id.as_str()).concat(" state=").concat(
            t.state.as_shown(),
        ),
        None => text("task=-"),
    };
    let decision = match &delivery.decision {
        Some(d) => text("decision=").concat(d.decision_id.as_str()).concat(" status=").concat(
            d.status.as_str(),
        ),
        None => text("decision=-"),
    };
    let reason = match &delivery.reason {
        Some(s) => text("reason=").concat(s.as_str()),
        None => text("reason=-"),
    };
    task.concat(" | ").concat(decision.as_str()).concat(" | ").concat(reason.as_str())
}

/// Whether the client runs a round for the delivery: it does so by itself for a
/// task that is handed over and waits.
pub open spec fn runs_task(delivery: DeliveryModel, mode: BridgeMode) -> Option<Seq<char>> {
    match delivery.task {
        Some(task) => if delivery.kind is TaskDispatch && mode is Autorun && task.state is Pending {
            Some(task.task_id)
        } else {
            None
        },
        None => None,
    }
}

/// The first half of a delivery: what to show, and the task to run.
pub struct DeliveryStart {
    pub line: String,
    pub run_task: Option<String>,
}

fn one_line(line: String) -> (r: Vec<String>)
    ensures
        texts(r@) == Seq::<Seq<char>>::empty().push(line@),
{
    let mut v: Vec<String> = Vec::new();
    v.push(line);
    assert(texts(v@) =~= Seq::<Seq<char>>::empty().push(line@));
    v
}

impl LocalState {
    /// What a client knows before it is connected.
    pub fn new() -> (r: LocalState)
        ensures
            r@ == (LocalModel {
                agent: None,
                current_task: None,
                session_id: None,
                last_ack_delivery_id: 0,
            }),
    {
        LocalState { agent: None, current_task: None, session_id: None, last_ack_delivery_id: 0 }
    }

    /// The first message of a client, with the last delivery that it processed.
    pub fn hello(&self, agent: &str, mode: BridgeMode) -> (r: BridgeClientMessage)
        ensures
            r matches BridgeClientMessage::Hello { agent: a, mode: m, last_ack_delivery_id }
                && a@ == agent@ && m == mode && last_ack_delivery_id == Some(
                self.last_ack_delivery_id,
            ),
    {
        BridgeClientMessage::Hello {
            agent: text(agent),
            mode,
            last_ack_delivery_id: Some(self.last_ack_delivery_id),
        }
    }

    /// The heartbeat of a client that is attached.
    pub fn heartbeat(&self) -> (r: Option<BridgeClientMessage>)
        ensures
            r is Some == self@.session_id is Some,
            r matches Some(m) ==> (m matches BridgeClientMessage::Heartbeat { session_id } && Some(
                session_id@,
            ) == self@.session_id),
    {
        match &self.session_id {
            Some(session_id) => Some(
                BridgeClientMessage::Heartbeat { session_id: session_id.clone() },
            ),
            None => None,
        }
    }

    fn apply_snapshot(&mut self, session_id: &str, snapshot: BridgeSyncSnapshot)
        ensures
            final(self)@ == old(self)@.synced(session_id@, snapshot@),
    {
        self.session_id = Some(text(session_id));
        self.agent = Some(snapshot.agent);
        self.current_task = snapshot.current_task;
    }

    pub fn ensure_session_matches(&self, agent: &str, session_id: &str) -> (r: Result<(), Failure>)
        ensures
            seen(r) == self@.session_check(agent@, session_id@),
    {
        match &self.session_id {
            Some(active) => if same_text(active.as_str(), session_id) {
                Ok(())
            } else {
                Err(
                    Failure::new(
                        text("stale bridge session for agent ").concat(agent).concat(
                            ": expected ",
                        ).concat(active.as_str()).concat(", got ").concat(session_id),
                    ),
                )
            },
            None => Err(
                Failure::new(
                    text("received bridge delivery before welcome for agent ").concat(agent),
                ),
            ),
        }
    }

    /// Takes in a message of the daemon.
    pub fn handle_server_message(&mut self, agent: &str, message: BridgeServerMessage) -> (r: Result<
        HostStep,
        Failure,
    >)
        ensures
            (final(self)@, seen(r)) == old(self)@.receive(agent@, message@),
    {
        match message {
            BridgeServerMessage::Welcome { session_id, snapshot, pending_deliveries } => {
                let mut lines = one_line(show_snapshot(&snapshot));
                let ghost first = texts(lines@);
                let line = text("[agenthost] bridge attached | agent=").concat(agent).concat(
                    " | session=",
                ).concat(session_id.as_str()).concat(" | pending=").concat(
                    to_decimal(pending_deliveries.len() as u64).as_str(),
                );
                let ghost second = line@;
                lines.push(line);
                assert(texts(lines@) =~= first.push(second));
                self.apply_snapshot(session_id.as_str(), snapshot);
                Ok(HostStep { lines, session_id, deliveries: rank_all(&pending_deliveries) })
            },
            BridgeServerMessage::SyncSnapshot {
                session_id,
                reason,
                snapshot,
                pending_deliveries,
            } => {
                let mut lines = one_line(show_snapshot(&snapshot));
                let ghost first = texts(lines@);
                let line = text("[agenthost] sync snapshot | agent=").concat(agent).concat(
                    " | reason=",
                ).concat(reason.as_str()).concat(" | pending=").concat(
                    to_decimal(pending_deliveries.len() as u64).as_str(),
                );
                let ghost second = line@;
                lines.push(line);
                assert(texts(lines@) =~= first.push(second));
                self.apply_snapshot(session_id.as_str(), snapshot);
                Ok(HostStep { lines, session_id, deliveries: rank_all(&pending_deliveries) })
            },
            BridgeServerMessage::Delivery { session_id, delivery } => {
                match self.ensure_session_matches(agent, session_id.as_str()) {
                    Err(e) => Err(e),
                    Ok(_) => {
                        let ghost model = delivery@;
                        let mut deliveries: Vec<BridgeDelivery> = Vec::new();
                        deliveries.push(delivery);
                        assert(views(deliveries@) =~= Seq::<DeliveryModel>::empty().push(model));
                        let lines: Vec<String> = Vec::new();
                        assert(texts(lines@) =~= Seq::empty());
                        Ok(HostStep { lines, session_id, deliveries })
                    },
                }
            },
            BridgeServerMessage::Error { message } => Err(
                Failure::new(text("bridge server error: ").concat(message.as_str())),
            ),
            BridgeServerMessage::Pong => {
                let step = HostStep {
                    lines: Vec::new(),
                    session_id: text(""),
                    deliveries: Vec::new(),
                };
                assert(texts(step.lines@) =~= Seq::empty());
                assert(views(step.deliveries@) =~= Seq::<DeliveryModel>::empty());
                Ok(step)
            },
        }
    }

    /// Begins a delivery.
    pub fn begin_delivery(&mut self, delivery: &BridgeDelivery, mode: BridgeMode) -> (r:
        DeliveryStart)
        ensures
            final(self)@ == old(self)@.taken(delivery@),
            r.line@ == delivery_line(delivery@),
            opt_text(r.run_task) == runs_task(delivery@, mode),
    {
        let line = text("[agenthost] delivery ").concat(
            to_decimal(delivery.delivery_id).as_str(),
        ).concat(" | kind=").concat(delivery.kind.as_shown()).concat(" | ").concat(
            describe_delivery(delivery).as_str(),
        );
        let mut run_task: Option<String> = None;
        match &delivery.task {
            Some(task) => {
                self.current_task = Some(task.dup());
                if delivery.kind == BridgeDeliveryKind::TaskDispatch && mode == BridgeMode::Autorun
                    && task.state == TaskState::Pending {
                    run_task = Some(task.task_id.clone());
                }
            },
            None => {},
        }
        DeliveryStart { line, run_task }
    }

    /// Ends a delivery: the acknowledgement to send, and whether the client then
    /// asks for a snapshot.
    pub fn finish_delivery(
        &mut self,
        session_id: &str,
        delivery: &BridgeDelivery,
        mode: BridgeMode,
    ) -> (r: (BridgeClientMessage, Option<BridgeClientMessage>))
        ensures
            final(self)@ == old(self)@.acknowledged(delivery@),
            r.0 matches BridgeClientMessage::DeliveryAck { session_id: s, delivery_id } && s@
                == session_id@ && delivery_id == delivery@.delivery_id,
            r.1 is Some == (delivery@.kind is TaskDispatch && mode is Autorun),
            r.1 matches Some(m) ==> (m matches BridgeClientMessage::RequestSync { session_id: s }
                && s@ == session_id@),
    {
        if delivery.delivery_id > self.last_ack_delivery_id {
            self.last_ack_delivery_id = delivery.delivery_id;
        }
        let ack = BridgeClientMessage::DeliveryAck {
            session_id: text(session_id),
            delivery_id: delivery.delivery_id,
        };
        let sync = if delivery.kind == BridgeDeliveryKind::TaskDispatch && mode
            == BridgeMode::Autorun {
            Some(BridgeClientMessage::RequestSync { session_id: text(session_id) })
        } else {
            None
        };
        (ack, sync)
    }
}

/// The name that messages show for the status of a round.
pub open spec fn round_status_shown(status: TaskRoundStatus) -> Seq<char> {
    match status {
        TaskRoundStatus::Result => "Result"@,
        TaskRoundStatus::Report => "Report"@,
        TaskRoundStatus::WaitDecision => "WaitDecision"@,
    }
}

/// The line that shows a round that the client ran.
pub fn show_autorun(task: &TaskSummary, payload: &TaskRoundPayload) -> (r: String)
    ensures
        r@ == "[agenthost] autorun complete | task="@ + task@.task_id + " | state="@
            + round_status_shown(payload@.status) + " | summary="@ + payload@.summary,
{
    let status = match payload.status {
        TaskRoundStatus::Result => "Result",
        TaskRoundStatus::Report => "Report",
        TaskRoundStatus::WaitDecision => "WaitDecision",
    };
    text("[agenthost] autorun complete | task=").concat(task.task_id.as_str()).concat(
        " | state=",
    ).concat(status).concat(" | summary=").concat(payload.summary.as_str())
}

/// How many seconds to wait: at least one.
pub fn at_least_one_second(seconds: u64) -> (r: u64)
    ensures
        r == (if seconds == 0 {
            1
        } else {
            seconds
        }),
{
    if seconds == 0 {
        1
    } else {
        seconds
    }
}

/// What a client has processed never shrinks, and holds every delivery that it
/// acknowledged.
pub proof fn acknowledgement_only_rises(state: LocalModel, delivery: DeliveryModel)
    ensures
        state.acknowledged(delivery).last_ack_delivery_id >= state.last_ack_delivery_id,
        state.acknowledged(delivery).last_ack_delivery_id >= delivery.delivery_id,
        state.acknowledged(delivery).last_ack_delivery_id == state.last_ack_delivery_id
            || state.acknowledged(delivery).last_ack_delivery_id == delivery.delivery_id,
{
}

} // verus!
