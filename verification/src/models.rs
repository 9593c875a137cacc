//! The records that the control plane keeps and sends, each with the
//! mathematical model that contracts speak of.

use vstd::prelude::*;

use crate::control::ControlRequest;
use crate::table::{dup_all, dup_opt, view_opt, views, Dup, Keyed, Record};
use crate::text::{copy_text, copy_texts, opt_text, texts};
use crate::time::Timestamp;

verus! {

#[derive(Clone, Copy, Debug, PartialEq, Eq, Structural)]
pub enum AgentRole {
    Main,
    Child,
}

impl AgentRole {
    /// The name under which the value is stored and sent.
    pub open spec fn label(self) -> Seq<char> {
        match self {
            AgentRole::Main => "main"@,
            AgentRole::Child => "child"@,
        }
    }

    pub fn as_label(self) -> (r: &'static str)
        ensures
            r@ == self.label(),
    {
        match self {
            AgentRole::Main => "main",
            AgentRole::Child => "child",
        }
    }

    /// The name that messages show.
    pub open spec fn shown(self) -> Seq<char> {
        match self {
            AgentRole::Main => "Main"@,
            AgentRole::Child => "Child"@,
        }
    }

    pub fn as_shown(self) -> (r: &'static str)
        ensures
            r@ == self.shown(),
    {
        match self {
            AgentRole::Main => "Main",
            AgentRole::Child => "Child",
        }
    }
}

#[derive(Clone, Copy, Debug, PartialEq, Eq, Structural)]
pub enum AgentSessionState {
    Idle,
    Busy,
    Blocked,
    Offline,
}

impl AgentSessionState {
    /// The name under which the value is stored and sent.
    pub open spec fn label(self) -> Seq<char> {
        match self {
            AgentSessionState::Idle => "idle"@,
            AgentSessionState::Busy => "busy"@,
            AgentSessionState::Blocked => "blocked"@,
            AgentSessionState::Offline => "offline"@,
        }
    }

    pub fn as_label(self) -> (r: &'static str)
        ensures
            r@ == self.label(),
    {
        match self {
            AgentSessionState::Idle => "idle",
            AgentSessionState::Busy => "busy",
            AgentSessionState::Blocked => "blocked",
            AgentSessionState::Offline => "offline",
        }
    }

    /// The name that messages show.
    pub open spec fn shown(self) -> Seq<char> {
        match self {
            AgentSessionState::Idle => "Idle"@,
            AgentSessionState::Busy => "Busy"@,
            AgentSessionState::Blocked => "Blocked"@,
            AgentSessionState::Offline => "Offline"@,
        }
    }

    pub fn as_shown(self) -> (r: &'static str)
        ensures
            r@ == self.shown(),
    {
        match self {
            AgentSessionState::Idle => "Idle",
            AgentSessionState::Busy => "Busy",
            AgentSessionState::Blocked => "Blocked",
            AgentSessionState::Offline => "Offline",
        }
    }
}

#[derive(Clone, Copy, Debug, PartialEq, Eq, Structural)]
pub enum AgentBootstrapState {
    AwaitingInit,
    Ready,
}

impl AgentBootstrapState {
    /// The name under which the value is stored and sent.
    pub open spec fn label(self) -> Seq<char> {
        match self {
            AgentBootstrapState::AwaitingInit => "awaiting_init"@,
            AgentBootstrapState::Ready => "ready"@,
        }
    }

    pub fn as_label(self) -> (r: &'static str)
        ensures
            r@ == self.label(),
    {
        match self {
            AgentBootstrapState::AwaitingInit => "awaiting_init",
            AgentBootstrapState::Ready => "ready",
        }
    }

    /// The name that messages show.
    pub open spec fn shown(self) -> Seq<char> {
        match self {
            AgentBootstrapState::AwaitingInit => "AwaitingInit"@,
            AgentBootstrapState::Ready => "Ready"@,
        }
    }

    pub fn as_shown(self) -> (r: &'static str)
        ensures
            r@ == self.shown(),
    {
        match self {
            AgentBootstrapState::AwaitingInit => "AwaitingInit",
            AgentBootstrapState::Ready => "Ready",
        }
    }
}

#[derive(Clone, Copy, Debug, PartialEq, Eq, Structural)]
pub enum AgentContextSourceKind {
    PromptContract,
    WorkingNotes,
}

impl AgentContextSourceKind {
    /// The name under which the value is stored and sent.
    pub open spec fn label(self) -> Seq<char> {
        match self {
            AgentContextSourceKind::PromptContract => "prompt_contract"@,
            AgentContextSourceKind::WorkingNotes => "working_notes"@,
        }
    }

    pub fn as_label(self) -> (r: &'static str)
        ensures
            r@ == self.label(),
    {
        match self {
            AgentContextSourceKind::PromptContract => "prompt_contract",
            AgentContextSourceKind::WorkingNotes => "working_notes",
        }
    }
}

#[derive(Clone, Copy, Debug, PartialEq, Eq, Structural)]
pub enum TaskState {
    Pending,
    Accepted,
    Running,
    Completed,
    Reported,
    Analyzed,
    DecisionSent,
    Closed,
    BlockedWaitingDecision,
    Cancelled,
    Failed,
}

impl TaskState {
    /// The name under which the value is stored and sent.
    pub open spec fn label(self) -> Seq<char> {
        match self {
            TaskState::Pending => "pending"@,
            TaskState::Accepted => "accepted"@,
            TaskState::Running => "running"@,
            TaskState::Completed => "completed"@,
            TaskState::Reported => "reported"@,
            TaskState::Analyzed => "analyzed"@,
            TaskState::DecisionSent => "decision_sent"@,
            TaskState::Closed => "closed"@,
            TaskState::BlockedWaitingDecision => "blocked_waiting_decision"@,
            TaskState::Cancelled => "cancelled"@,
            TaskState::Failed => "failed"@,
        }
    }

    pub fn as_label(self) -> (r: &'static str)
        ensures
            r@ == self.label(),
    {
        match self {
            TaskState::Pending => "pending",
            TaskState::Accepted => "accepted",
            TaskState::Running => "running",
            TaskState::Completed => "completed",
            TaskState::Reported => "reported",
            TaskState::Analyzed => "analyzed",
            TaskState::DecisionSent => "decision_sent",
            TaskState::Closed => "closed",
            TaskState::BlockedWaitingDecision => "blocked_waiting_decision",
            TaskState::Cancelled => "cancelled",
            TaskState::Failed => "failed",
        }
    }

    /// The name that messages show.
    pub open spec fn shown(self) -> Seq<char> {
        match self {
            TaskState::Pending => "Pending"@,
            TaskState::Accepted => "Accepted"@,
            TaskState::Running => "Running"@,
            TaskState::Completed => "Completed"@,
            TaskState::Reported => "Reported"@,
            TaskState::Analyzed => "Analyzed"@,
            TaskState::DecisionSent => "DecisionSent"@,
            TaskState::Closed => "Closed"@,
            TaskState::BlockedWaitingDecision => "BlockedWaitingDecision"@,
            TaskState::Cancelled => "Cancelled"@,
            TaskState::Failed => "Failed"@,
        }
    }

    pub fn as_shown(self) -> (r: &'static str)
        ensures
            r@ == self.shown(),
    {
        match self {
            TaskState::Pending => "Pending",
            TaskState::Accepted => "Accepted",
            TaskState::Running => "Running",
            TaskState::Completed => "Completed",
            TaskState::Reported => "Reported",
            TaskState::Analyzed => "Analyzed",
            TaskState::DecisionSent => "DecisionSent",
            TaskState::Closed => "Closed",
            TaskState::BlockedWaitingDecision => "BlockedWaitingDecision",
            TaskState::Cancelled => "Cancelled",
            TaskState::Failed => "Failed",
        }
    }
}

#[derive(Clone, Copy, Debug, PartialEq, Eq, Structural)]
pub enum CodexSessionStatus {
    Running,
    Succeeded,
    Failed,
}

impl CodexSessionStatus {
    /// The name under which the value is stored and sent.
    pub open spec fn label(self) -> Seq<char> {
        match self {
            CodexSessionStatus::Running => "running"@,
            CodexSessionStatus::Succeeded => "succeeded"@,
            CodexSessionStatus::Failed => "failed"@,
        }
    }

    pub fn as_label(self) -> (r: &'static str)
        ensures
            r@ == self.label(),
    {
        match self {
            CodexSessionStatus::Running => "running",
            CodexSessionStatus::Succeeded => "succeeded",
            CodexSessionStatus::Failed => "failed",
        }
    }

    /// The name that messages show.
    pub open spec fn shown(self) -> Seq<char> {
        match self {
            CodexSessionStatus::Running => "Running"@,
            CodexSessionStatus::Succeeded => "Succeeded"@,
            CodexSessionStatus::Failed => "Failed"@,
        }
    }

    pub fn as_shown(self) -> (r: &'static str)
        ensures
            r@ == self.shown(),
    {
        match self {
            CodexSessionStatus::Running => "Running",
            CodexSessionStatus::Succeeded => "Succeeded",
            CodexSessionStatus::Failed => "Failed",
        }
    }
}

#[derive(Clone, Copy, Debug, PartialEq, Eq, Structural)]
pub enum SessionMode {
    Round,
    Pty,
    AppServer,
}

impl SessionMode {
    /// The name under which the value is stored and sent.
    pub open spec fn label(self) -> Seq<char> {
        match self {
            SessionMode::Round => "round"@,
            SessionMode::Pty => "pty"@,
            SessionMode::AppServer => "app_server"@,
        }
    }

    pub fn as_label(self) -> (r: &'static str)
        ensures
            r@ == self.label(),
    {
        match self {
            SessionMode::Round => "round",
            SessionMode::Pty => "pty",
            SessionMode::AppServer => "app_server",
        }
    }

    /// The name that messages show.
    pub open spec fn shown(self) -> Seq<char> {
        match self {
            SessionMode::Round => "Round"@,
            SessionMode::Pty => "Pty"@,
            SessionMode::AppServer => "AppServer"@,
        }
    }

    pub fn as_shown(self) -> (r: &'static str)
        ensures
            r@ == self.shown(),
    {
        match self {
            SessionMode::Round => "Round",
            SessionMode::Pty => "Pty",
            SessionMode::AppServer => "AppServer",
        }
    }
}

#[derive(Clone, Copy, Debug, PartialEq, Eq, Structural)]
pub enum BridgeConnectionState {
    Disconnected,
    Connected,
}

impl BridgeConnectionState {
    /// The name under which the value is stored and sent.
    pub open spec fn label(self) -> Seq<char> {
        match self {
            BridgeConnectionState::Disconnected => "disconnected"@,
            BridgeConnectionState::Connected => "connected"@,
        }
    }

    pub fn as_label(self) -> (r: &'static str)
        ensures
            r@ == self.label(),
    {
        match self {
            BridgeConnectionState::Disconnected => "disconnected",
            BridgeConnectionState::Connected => "connected",
        }
    }

    /// The name that messages show.
    pub open spec fn shown(self) -> Seq<char> {
        match self {
            BridgeConnectionState::Disconnected => "Disconnected"@,
            BridgeConnectionState::Connected => "Connected"@,
        }
    }

    pub fn as_shown(self) -> (r: &'static str)
        ensures
            r@ == self.shown(),
    {
        match self {
            BridgeConnectionState::Disconnected => "Disconnected",
            BridgeConnectionState::Connected => "Connected",
        }
    }
}

#[derive(Clone, Copy, Debug, PartialEq, Eq, Structural)]
pub enum BridgeMode {
    Passive,
    Autorun,
}

impl BridgeMode {
    /// The name under which the value is stored and sent.
    pub open spec fn label(self) -> Seq<char> {
        match self {
            BridgeMode::Passive => "passive"@,
            BridgeMode::Autorun => "autorun"@,
        }
    }

    pub fn as_label(self) -> (r: &'static str)
        ensures
            r@ == self.label(),
    {
        match self {
            BridgeMode::Passive => "passive",
            BridgeMode::Autorun => "autorun",
        }
    }
}

#[derive(Clone, Copy, Debug, PartialEq, Eq, Structural)]
pub enum AppServerOwner {
    Bridge,
    Daemon,
}

impl AppServerOwner {
    /// The name under which the value is stored and sent.
    pub open spec fn label(self) -> Seq<char> {
        match self {
            AppServerOwner::Bridge => "bridge"@,
            AppServerOwner::Daemon => "daemon"@,
        }
    }

    pub fn as_label(self) -> (r: &'static str)
        ensures
            r@ == self.label(),
    {
        match self {
            AppServerOwner::Bridge => "bridge",
            AppServerOwner::Daemon => "daemon",
        }
    }
}

#[derive(Clone, Copy, Debug, PartialEq, Eq, Structural)]
pub enum VisiblePaneKind {
    Shell,
    View,
}

impl VisiblePaneKind {
    /// The name under which the value is stored and sent.
    pub open spec fn label(self) -> Seq<char> {
        match self {
            VisiblePaneKind::Shell => "shell"@,
            VisiblePaneKind::View => "view"@,
        }
    }

    pub fn as_label(self) -> (r: &'static str)
        ensures
            r@ == self.label(),
    {
        match self {
            VisiblePaneKind::Shell => "shell",
            VisiblePaneKind::View => "view",
        }
    }

    /// The name that messages show.
    pub open spec fn shown(self) -> Seq<char> {
        match self {
            VisiblePaneKind::Shell => "Shell"@,
            VisiblePaneKind::View => "View"@,
        }
    }

    pub fn as_shown(self) -> (r: &'static str)
        ensures
            r@ == self.shown(),
    {
        match self {
            VisiblePaneKind::Shell => "Shell",
            VisiblePaneKind::View => "View",
        }
    }
}

/// How a child agent ends a round.
#[derive(Clone, Copy, Debug, PartialEq, Eq, Structural)]
pub enum TaskRoundStatus {
    Result,
    Report,
    WaitDecision,
}

impl TaskRoundStatus {
    /// The name under which the value is stored and sent.
    pub open spec fn label(self) -> Seq<char> {
        match self {
            TaskRoundStatus::Result => "result"@,
            TaskRoundStatus::Report => "report"@,
            TaskRoundStatus::WaitDecision => "wait_decision"@,
        }
    }

    pub fn as_label(self) -> (r: &'static str)
        ensures
            r@ == self.label(),
    {
        match self {
            TaskRoundStatus::Result => "result",
            TaskRoundStatus::Report => "report",
            TaskRoundStatus::WaitDecision => "wait_decision",
        }
    }
}

#[derive(Clone, Copy, Debug, PartialEq, Eq, Structural)]
pub enum BridgeDeliveryKind {
    TaskDispatch,
    TaskFeedback,
    TaskCancelled,
    TaskClosed,
    SyncRequired,
}

impl BridgeDeliveryKind {
    /// The name under which the value is stored and sent.
    pub open spec fn label(self) -> Seq<char> {
        match self {
            BridgeDeliveryKind::TaskDispatch => "task_dispatch"@,
            BridgeDeliveryKind::TaskFeedback => "task_feedback"@,
            BridgeDeliveryKind::TaskCancelled => "task_cancelled"@,
            BridgeDeliveryKind::TaskClosed => "task_closed"@,
            BridgeDeliveryKind::SyncRequired => "sync_required"@,
        }
    }

    pub fn as_label(self) -> (r: &'static str)
        ensures
            r@ == self.label(),
    {
        match self {
            BridgeDeliveryKind::TaskDispatch => "task_dispatch",
            BridgeDeliveryKind::TaskFeedback => "task_feedback",
            BridgeDeliveryKind::TaskCancelled => "task_cancelled",
            BridgeDeliveryKind::TaskClosed => "task_closed",
            BridgeDeliveryKind::SyncRequired => "sync_required",
        }
    }

    /// The name that messages show.
    pub open spec fn shown(self) -> Seq<char> {
        match self {
            BridgeDeliveryKind::TaskDispatch => "TaskDispatch"@,
            BridgeDeliveryKind::TaskFeedback => "TaskFeedback"@,
            BridgeDeliveryKind::TaskCancelled => "TaskCancelled"@,
            BridgeDeliveryKind::TaskClosed => "TaskClosed"@,
            BridgeDeliveryKind::SyncRequired => "SyncRequired"@,
        }
    }

    pub fn as_shown(self) -> (r: &'static str)
        ensures
            r@ == self.shown(),
    {
        match self {
            BridgeDeliveryKind::TaskDispatch => "TaskDispatch",
            BridgeDeliveryKind::TaskFeedback => "TaskFeedback",
            BridgeDeliveryKind::TaskCancelled => "TaskCancelled",
            BridgeDeliveryKind::TaskClosed => "TaskClosed",
            BridgeDeliveryKind::SyncRequired => "SyncRequired",
        }
    }
}

/// An agent: a long-lived endpoint with its repository, its runtime and its
/// current task.
#[derive(Debug)]
pub struct AgentSummary {
    pub name: String,
    pub role: AgentRole,
    pub repo_name: Option<String>,
    pub cwd: String,
    pub prompt_path: Option<String>,
    pub thread_id: Option<String>,
    pub app_server_url: Option<String>,
    pub app_server_owner: Option<AppServerOwner>,
    pub app_server_registered_at: Option<Timestamp>,
    pub visible_pane_pid: Option<u32>,
    pub visible_pane_kind: Option<VisiblePaneKind>,
    pub visible_pane_registered_at: Option<Timestamp>,
    pub current_session_id: Option<String>,
    pub state: AgentSessionState,
    pub bootstrap_state: AgentBootstrapState,
    pub bootstrap_summary: Option<String>,
    pub bootstrap_completed_at: Option<Timestamp>,
    pub current_task_id: Option<String>,
    pub last_output_at: Option<Timestamp>,
    pub last_heartbeat_at: Option<Timestamp>,
    pub bridge_state: BridgeConnectionState,
    pub bridge_mode: Option<BridgeMode>,
    pub bridge_session_id: Option<String>,
    pub bridge_connected_at: Option<Timestamp>,
    pub bridge_last_seen_at: Option<Timestamp>,
    pub bridge_last_delivery_id: u64,
    pub bridge_last_ack_delivery_id: u64,
    pub bridge_pending_delivery_count: u32,
}

#[verifier::ext_equal]
pub struct AgentModel {
    pub name: Seq<char>,
    pub role: AgentRole,
    pub repo_name: Option<Seq<char>>,
    pub cwd: Seq<char>,
    pub prompt_path: Option<Seq<char>>,
    pub thread_id: Option<Seq<char>>,
    pub app_server_url: Option<Seq<char>>,
    pub app_server_owner: Option<AppServerOwner>,
    pub app_server_registered_at: Option<Timestamp>,
    pub visible_pane_pid: Option<u32>,
    pub visible_pane_kind: Option<VisiblePaneKind>,
    pub visible_pane_registered_at: Option<Timestamp>,
    pub current_session_id: Option<Seq<char>>,
    pub state: AgentSessionState,
    pub bootstrap_state: AgentBootstrapState,
    pub bootstrap_summary: Option<Seq<char>>,
    pub bootstrap_completed_at: Option<Timestamp>,
    pub current_task_id: Option<Seq<char>>,
    pub last_output_at: Option<Timestamp>,
    pub last_heartbeat_at: Option<Timestamp>,
    pub bridge_state: BridgeConnectionState,
    pub bridge_mode: Option<BridgeMode>,
    pub bridge_session_id: Option<Seq<char>>,
    pub bridge_connected_at: Option<Timestamp>,
    pub bridge_last_seen_at: Option<Timestamp>,
    pub bridge_last_delivery_id: u64,
    pub bridge_last_ack_delivery_id: u64,
    pub bridge_pending_delivery_count: u32,
}

impl View for AgentSummary {
    type V = AgentModel;

    open spec fn view(&self) -> AgentModel {
        AgentModel {
            name: self.name@,
            role: self.role,
            repo_name: opt_text(self.repo_name),
            cwd: self.cwd@,
            prompt_path: opt_text(self.prompt_path),
            thread_id: opt_text(self.thread_id),
            app_server_url: opt_text(self.app_server_url),
            app_server_owner: self.app_server_owner,
            app_server_registered_at: self.app_server_registered_at,
            visible_pane_pid: self.visible_pane_pid,
            visible_pane_kind: self.visible_pane_kind,
            visible_pane_registered_at: self.visible_pane_registered_at,
            current_session_id: opt_text(self.current_session_id),
            state: self.state,
            bootstrap_state: self.bootstrap_state,
            bootstrap_summary: opt_text(self.bootstrap_summary),
            bootstrap_completed_at: self.bootstrap_completed_at,
            current_task_id: opt_text(self.current_task_id),
            last_output_at: self.last_output_at,
            last_heartbeat_at: self.last_heartbeat_at,
            bridge_state: self.bridge_state,
            bridge_mode: self.bridge_mode,
            bridge_session_id: opt_text(self.bridge_session_id),
            bridge_connected_at: self.bridge_connected_at,
            bridge_last_seen_at: self.bridge_last_seen_at,
            bridge_last_delivery_id: self.bridge_last_delivery_id,
            bridge_last_ack_delivery_id: self.bridge_last_ack_delivery_id,
            bridge_pending_delivery_count: self.bridge_pending_delivery_count,
        }
    }
}

impl Dup for AgentSummary {
    fn dup(&self) -> AgentSummary {
        AgentSummary {
            name: self.name.clone(),
            role: self.role,
            repo_name: copy_text(&self.repo_name),
            cwd: self.cwd.clone(),
            prompt_path: copy_text(&self.prompt_path),
            thread_id: copy_text(&self.thread_id),
            app_server_url: copy_text(&self.app_server_url),
            app_server_owner: self.app_server_owner,
            app_server_registered_at: self.app_server_registered_at,
            visible_pane_pid: self.visible_pane_pid,
            visible_pane_kind: self.visible_pane_kind,
            visible_pane_registered_at: self.visible_pane_registered_at,
            current_session_id: copy_text(&self.current_session_id),
            state: self.state,
            bootstrap_state: self.bootstrap_state,
            bootstrap_summary: copy_text(&self.bootstrap_summary),
            bootstrap_completed_at: self.bootstrap_completed_at,
            current_task_id: copy_text(&self.current_task_id),
            last_output_at: self.last_output_at,
            last_heartbeat_at: self.last_heartbeat_at,
            bridge_state: self.bridge_state,
            bridge_mode: self.bridge_mode,
            bridge_session_id: copy_text(&self.bridge_session_id),
            bridge_connected_at: self.bridge_connected_at,
            bridge_last_seen_at: self.bridge_last_seen_at,
            bridge_last_delivery_id: self.bridge_last_delivery_id,
            bridge_last_ack_delivery_id: self.bridge_last_ack_delivery_id,
            bridge_pending_delivery_count: self.bridge_pending_delivery_count,
        }
    }
}

impl Keyed for AgentModel {
    open spec fn key(self) -> Seq<char> {
        self.name
    }
}

impl Record for AgentSummary {
    fn key(&self) -> &str {
        self.name.as_str()
    }
}

/// A task: one piece of work that an agent hands to another, over many rounds.
#[derive(Debug)]
pub struct TaskSummary {
    pub task_id: String,
    pub from_agent: String,
    pub to_agent: String,
    pub title: String,
    pub summary: String,
    pub effort: Option<String>,
    pub read_scope: Vec<String>,
    pub write_scope: Vec<String>,
    pub acceptance: Vec<String>,
    pub auto_resolve_by: Option<String>,
    pub auto_resolve_summary: Option<String>,
    pub round_count: u32,
    pub latest_child_status: Option<String>,
    pub latest_child_summary: Option<String>,
    pub latest_child_blocking: Option<String>,
    pub latest_child_topic: Option<String>,
    pub latest_child_details: Option<String>,
    pub latest_decision_id: Option<String>,
    pub latest_decision_summary: Option<String>,
    pub latest_decision_status: Option<String>,
    pub latest_decision_issued_by: Option<String>,
    pub latest_decision_at: Option<Timestamp>,
    pub state: TaskState,
    pub created_at: Timestamp,
    pub updated_at: Timestamp,
    pub closed_at: Option<Timestamp>,
}

#[verifier::ext_equal]
pub struct TaskModel {
    pub task_id: Seq<char>,
    pub from_agent: Seq<char>,
    pub to_agent: Seq<char>,
    pub title: Seq<char>,
    pub summary: Seq<char>,
    pub effort: Option<Seq<char>>,
    pub read_scope: Seq<Seq<char>>,
    pub write_scope: Seq<Seq<char>>,
    pub acceptance: Seq<Seq<char>>,
    pub auto_resolve_by: Option<Seq<char>>,
    pub auto_resolve_summary: Option<Seq<char>>,
    pub round_count: u32,
    pub latest_child_status: Option<Seq<char>>,
    pub latest_child_summary: Option<Seq<char>>,
    pub latest_child_blocking: Option<Seq<char>>,
    pub latest_child_topic: Option<Seq<char>>,
    pub latest_child_details: Option<Seq<char>>,
    pub latest_decision_id: Option<Seq<char>>,
    pub latest_decision_summary: Option<Seq<char>>,
    pub latest_decision_status: Option<Seq<char>>,
    pub latest_decision_issued_by: Option<Seq<char>>,
    pub latest_decision_at: Option<Timestamp>,
    pub state: TaskState,
    pub created_at: Timestamp,
    pub updated_at: Timestamp,
    pub closed_at: Option<Timestamp>,
}

impl View for TaskSummary {
    type V = TaskModel;

    open spec fn view(&self) -> TaskModel {
        TaskModel {
            task_id: self.task_id@,
            from_agent: self.from_agent@,
            to_agent: self.to_agent@,
            title: self.title@,
            summary: self.summary@,
            effort: opt_text(self.effort),
            read_scope: texts(self.read_scope@),
            write_scope: texts(self.write_scope@),
            acceptance: texts(self.acceptance@),
            auto_resolve_by: opt_text(self.auto_resolve_by),
            auto_resolve_summary: opt_text(self.auto_resolve_summary),
            round_count: self.round_count,
            latest_child_status: opt_text(self.latest_child_status),
            latest_child_summary: opt_text(self.latest_child_summary),
            latest_child_blocking: opt_text(self.latest_child_blocking),
            latest_child_topic: opt_text(self.latest_child_topic),
            latest_child_details: opt_text(self.latest_child_details),
            latest_decision_id: opt_text(self.latest_decision_id),
            latest_decision_summary: opt_text(self.latest_decision_summary),
            latest_decision_status: opt_text(self.latest_decision_status),
            latest_decision_issued_by: opt_text(self.latest_decision_issued_by),
            latest_decision_at: self.latest_decision_at,
            state: self.state,
            created_at: self.created_at,
            updated_at: self.updated_at,
            closed_at: self.closed_at,
        }
    }
}

impl Dup for TaskSummary {
    fn dup(&self) -> TaskSummary {
        TaskSummary {
            task_id: self.task_id.clone(),
            from_agent: self.from_agent.clone(),
            to_agent: self.to_agent.clone(),
            title: self.title.clone(),
            summary: self.summary.clone(),
            effort: copy_text(&self.effort),
            read_scope: copy_texts(&self.read_scope),
            write_scope: copy_texts(&self.write_scope),
            acceptance: copy_texts(&self.acceptance),
            auto_resolve_by: copy_text(&self.auto_resolve_by),
            auto_resolve_summary: copy_text(&self.auto_resolve_summary),
            round_count: self.round_count,
            latest_child_status: copy_text(&self.latest_child_status),
            latest_child_summary: copy_text(&self.latest_child_summary),
            latest_child_blocking: copy_text(&self.latest_child_blocking),
            latest_child_topic: copy_text(&self.latest_child_topic),
            latest_child_details: copy_text(&self.latest_child_details),
            latest_decision_id: copy_text(&self.latest_decision_id),
            latest_decision_summary: copy_text(&self.latest_decision_summary),
            latest_decision_status: copy_text(&self.latest_decision_status),
            latest_decision_issued_by: copy_text(&self.latest_decision_issued_by),
            latest_decision_at: self.latest_decision_at,
            state: self.state,
            created_at: self.created_at,
            updated_at: self.updated_at,
            closed_at: self.closed_at,
        }
    }
}

impl Keyed for TaskModel {
    open spec fn key(self) -> Seq<char> {
        self.task_id
    }
}

impl Record for TaskSummary {
    fn key(&self) -> &str {
        self.task_id.as_str()
    }
}

/// A decision of the main agent on a task.
#[derive(Debug)]
pub struct DecisionSummary {
    pub decision_id: String,
    pub task_id: String,
    pub issued_by: String,
    pub target_agent: String,
    pub summary: String,
    pub status: String,
    pub created_at: Timestamp,
    pub acknowledged_at: Option<Timestamp>,
}

#[verifier::ext_equal]
pub struct DecisionModel {
    pub decision_id: Seq<char>,
    pub task_id: Seq<char>,
    pub issued_by: Seq<char>,
    pub target_agent: Seq<char>,
    pub summary: Seq<char>,
    pub status: Seq<char>,
    pub created_at: Timestamp,
    pub acknowledged_at: Option<Timestamp>,
}

impl View for DecisionSummary {
    type V = DecisionModel;

    open spec fn view(&self) -> DecisionModel {
        DecisionModel {
            decision_id: self.decision_id@,
            task_id: self.task_id@,
            issued_by: self.issued_by@,
            target_agent: self.target_agent@,
            summary: self.summary@,
            status: self.status@,
            created_at: self.created_at,
            acknowledged_at: self.acknowledged_at,
        }
    }
}

impl Dup for DecisionSummary {
    fn dup(&self) -> DecisionSummary {
        DecisionSummary {
            decision_id: self.decision_id.clone(),
            task_id: self.task_id.clone(),
            issued_by: self.issued_by.clone(),
            target_agent: self.target_agent.clone(),
            summary: self.summary.clone(),
            status: self.status.clone(),
            created_at: self.created_at,
            acknowledged_at: self.acknowledged_at,
        }
    }
}

impl Keyed for DecisionModel {
    open spec fn key(self) -> Seq<char> {
        self.decision_id
    }
}

impl Record for DecisionSummary {
    fn key(&self) -> &str {
        self.decision_id.as_str()
    }
}

/// One run of a backend process for an agent.
#[derive(Debug)]
pub struct SessionSummary {
    pub session_id: String,
    pub agent_name: String,
    pub session_mode: SessionMode,
    pub pid: Option<u32>,
    pub thread_id: Option<String>,
    pub status: CodexSessionStatus,
    pub started_at: Timestamp,
    pub ended_at: Option<Timestamp>,
    pub last_output_at: Option<Timestamp>,
}

#[verifier::ext_equal]
pub struct SessionModel {
    pub session_id: Seq<char>,
    pub agent_name: Seq<char>,
    pub session_mode: SessionMode,
    pub pid: Option<u32>,
    pub thread_id: Option<Seq<char>>,
    pub status: CodexSessionStatus,
    pub started_at: Timestamp,
    pub ended_at: Option<Timestamp>,
    pub last_output_at: Option<Timestamp>,
}

impl View for SessionSummary {
    type V = SessionModel;

    open spec fn view(&self) -> SessionModel {
        SessionModel {
            session_id: self.session_id@,
            agent_name: self.agent_name@,
            session_mode: self.session_mode,
            pid: self.pid,
            thread_id: opt_text(self.thread_id),
            status: self.status,
            started_at: self.started_at,
            ended_at: self.ended_at,
            last_output_at: self.last_output_at,
        }
    }
}

impl Dup for SessionSummary {
    fn dup(&self) -> SessionSummary {
        SessionSummary {
            session_id: self.session_id.clone(),
            agent_name: self.agent_name.clone(),
            session_mode: self.session_mode,
            pid: self.pid,
            thread_id: copy_text(&self.thread_id),
            status: self.status,
            started_at: self.started_at,
            ended_at: self.ended_at,
            last_output_at: self.last_output_at,
        }
    }
}

impl Keyed for SessionModel {
    open spec fn key(self) -> Seq<char> {
        self.session_id
    }
}

impl Record for SessionSummary {
    fn key(&self) -> &str {
        self.session_id.as_str()
    }
}

#[derive(Debug)]
pub struct AgentRoundResult {
    pub agent: String,
    pub thread_id: String,
    pub final_message: String,
    pub completed_at: Timestamp,
}

#[verifier::ext_equal]
pub struct RoundModel {
    pub agent: Seq<char>,
    pub thread_id: Seq<char>,
    pub final_message: Seq<char>,
    pub completed_at: Timestamp,
}

impl View for AgentRoundResult {
    type V = RoundModel;

    open spec fn view(&self) -> RoundModel {
        RoundModel {
            agent: self.agent@,
            thread_id: self.thread_id@,
            final_message: self.final_message@,
            completed_at: self.completed_at,
        }
    }
}

impl Dup for AgentRoundResult {
    fn dup(&self) -> AgentRoundResult {
        AgentRoundResult {
            agent: self.agent.clone(),
            thread_id: self.thread_id.clone(),
            final_message: self.final_message.clone(),
            completed_at: self.completed_at,
        }
    }
}

/// A line that an agent wrote.
#[derive(Debug)]
pub struct StreamEventRecord {
    pub session_id: Option<String>,
    pub agent: String,
    pub stream: String,
    pub content: String,
    pub at: Timestamp,
}

#[verifier::ext_equal]
pub struct StreamModel {
    pub session_id: Option<Seq<char>>,
    pub agent: Seq<char>,
    pub stream: Seq<char>,
    pub content: Seq<char>,
    pub at: Timestamp,
}

impl View for StreamEventRecord {
    type V = StreamModel;

    open spec fn view(&self) -> StreamModel {
        StreamModel {
            session_id: opt_text(self.session_id),
            agent: self.agent@,
            stream: self.stream@,
            content: self.content@,
            at: self.at,
        }
    }
}

impl Dup for StreamEventRecord {
    fn dup(&self) -> StreamEventRecord {
        StreamEventRecord {
            session_id: copy_text(&self.session_id),
            agent: self.agent.clone(),
            stream: self.stream.clone(),
            content: self.content.clone(),
            at: self.at,
        }
    }
}

/// An entry of the event ledger.
#[derive(Debug)]
pub struct RuntimeEventRecord {
    pub id: i64,
    pub scope: String,
    pub scope_id: String,
    pub agent_name: Option<String>,
    pub task_id: Option<String>,
    pub session_id: Option<String>,
    pub actor_name: Option<String>,
    pub event_type: String,
    pub summary: String,
    pub reason: Option<String>,
    pub payload_json: Option<String>,
    pub created_at: Timestamp,
}

#[verifier::ext_equal]
pub struct RuntimeEventModel {
    pub id: i64,
    pub scope: Seq<char>,
    pub scope_id: Seq<char>,
    pub agent_name: Option<Seq<char>>,
    pub task_id: Option<Seq<char>>,
    pub session_id: Option<Seq<char>>,
    pub actor_name: Option<Seq<char>>,
    pub event_type: Seq<char>,
    pub summary: Seq<char>,
    pub reason: Option<Seq<char>>,
    pub payload_json: Option<Seq<char>>,
    pub created_at: Timestamp,
}

impl View for RuntimeEventRecord {
    type V = RuntimeEventModel;

    open spec fn view(&self) -> RuntimeEventModel {
        RuntimeEventModel {
            id: self.id,
            scope: self.scope@,
            scope_id: self.scope_id@,
            agent_name: opt_text(self.agent_name),
            task_id: opt_text(self.task_id),
            session_id: opt_text(self.session_id),
            actor_name: opt_text(self.actor_name),
            event_type: self.event_type@,
            summary: self.summary@,
            reason: opt_text(self.reason),
            payload_json: opt_text(self.payload_json),
            created_at: self.created_at,
        }
    }
}

impl Dup for RuntimeEventRecord {
    fn dup(&self) -> RuntimeEventRecord {
        RuntimeEventRecord {
            id: self.id,
            scope: self.scope.clone(),
            scope_id: self.scope_id.clone(),
            agent_name: copy_text(&self.agent_name),
            task_id: copy_text(&self.task_id),
            session_id: copy_text(&self.session_id),
            actor_name: copy_text(&self.actor_name),
            event_type: self.event_type.clone(),
            summary: self.summary.clone(),
            reason: copy_text(&self.reason),
            payload_json: copy_text(&self.payload_json),
            created_at: self.created_at,
        }
    }
}

#[derive(Debug)]
pub struct RuntimeTraceView {
    pub query_kind: String,
    pub query_value: String,
    pub event_count: usize,
    pub events: Vec<RuntimeEventRecord>,
}

#[verifier::ext_equal]
pub struct TraceModel {
    pub query_kind: Seq<char>,
    pub query_value: Seq<char>,
    pub event_count: usize,
    pub events: Seq<RuntimeEventModel>,
}

impl View for RuntimeTraceView {
    type V = TraceModel;

    open spec fn view(&self) -> TraceModel {
        TraceModel {
            query_kind: self.query_kind@,
            query_value: self.query_value@,
            event_count: self.event_count,
            events: views(self.events@),
        }
    }
}

impl Dup for RuntimeTraceView {
    fn dup(&self) -> RuntimeTraceView {
        RuntimeTraceView {
            query_kind: self.query_kind.clone(),
            query_value: self.query_value.clone(),
            event_count: self.event_count,
            events: dup_all(&self.events),
        }
    }
}

#[derive(Debug)]
pub struct CleanupSummary {
    pub requested_by: String,
    pub removed_agents: usize,
    pub removed_tasks: usize,
    pub removed_task_events: usize,
    pub removed_runtime_events: usize,
    pub removed_decisions: usize,
    pub removed_sessions: usize,
    pub removed_stream_events: usize,
    pub removed_agent_names: Vec<String>,
}

#[verifier::ext_equal]
pub struct CleanupModel {
    pub requested_by: Seq<char>,
    pub removed_agents: usize,
    pub removed_tasks: usize,
    pub removed_task_events: usize,
    pub removed_runtime_events: usize,
    pub removed_decisions: usize,
    pub removed_sessions: usize,
    pub removed_stream_events: usize,
    pub removed_agent_names: Seq<Seq<char>>,
}

impl View for CleanupSummary {
    type V = CleanupModel;

    open spec fn view(&self) -> CleanupModel {
        CleanupModel {
            requested_by: self.requested_by@,
            removed_agents: self.removed_agents,
            removed_tasks: self.removed_tasks,
            removed_task_events: self.removed_task_events,
            removed_runtime_events: self.removed_runtime_events,
            removed_decisions: self.removed_decisions,
            removed_sessions: self.removed_sessions,
            removed_stream_events: self.removed_stream_events,
            removed_agent_names: texts(self.removed_agent_names@),
        }
    }
}

impl Dup for CleanupSummary {
    fn dup(&self) -> CleanupSummary {
        CleanupSummary {
            requested_by: self.requested_by.clone(),
            removed_agents: self.removed_agents,
            removed_tasks: self.removed_tasks,
            removed_task_events: self.removed_task_events,
            removed_runtime_events: self.removed_runtime_events,
            removed_decisions: self.removed_decisions,
            removed_sessions: self.removed_sessions,
            removed_stream_events: self.removed_stream_events,
            removed_agent_names: copy_texts(&self.removed_agent_names),
        }
    }
}

#[derive(Debug)]
pub struct RemoveAgentSummary {
    pub agent: String,
    pub removed_tasks: usize,
    pub removed_task_events: usize,
    pub removed_runtime_events: usize,
    pub removed_decisions: usize,
    pub removed_sessions: usize,
    pub removed_stream_events: usize,
}

#[verifier::ext_equal]
pub struct RemovalModel {
    pub agent: Seq<char>,
    pub removed_tasks: usize,
    pub removed_task_events: usize,
    pub removed_runtime_events: usize,
    pub removed_decisions: usize,
    pub removed_sessions: usize,
    pub removed_stream_events: usize,
}

impl View for RemoveAgentSummary {
    type V = RemovalModel;

    open spec fn view(&self) -> RemovalModel {
        RemovalModel {
            agent: self.agent@,
            removed_tasks: self.removed_tasks,
            removed_task_events: self.removed_task_events,
            removed_runtime_events: self.removed_runtime_events,
            removed_decisions: self.removed_decisions,
            removed_sessions: self.removed_sessions,
            removed_stream_events: self.removed_stream_events,
        }
    }
}

impl Dup for RemoveAgentSummary {
    fn dup(&self) -> RemoveAgentSummary {
        RemoveAgentSummary {
            agent: self.agent.clone(),
            removed_tasks: self.removed_tasks,
            removed_task_events: self.removed_task_events,
            removed_runtime_events: self.removed_runtime_events,
            removed_decisions: self.removed_decisions,
            removed_sessions: self.removed_sessions,
            removed_stream_events: self.removed_stream_events,
        }
    }
}

#[derive(Debug)]
pub struct RepairSummary {
    pub requested_by: String,
    pub repaired_agents: usize,
    pub repaired_tasks: usize,
    pub repaired_sessions: usize,
    pub notes: Vec<String>,
}

#[verifier::ext_equal]
pub struct RepairModel {
    pub requested_by: Seq<char>,
    pub repaired_agents: usize,
    pub repaired_tasks: usize,
    pub repaired_sessions: usize,
    pub notes: Seq<Seq<char>>,
}

impl View for RepairSummary {
    type V = RepairModel;

    open spec fn view(&self) -> RepairModel {
        RepairModel {
            requested_by: self.requested_by@,
            repaired_agents: self.repaired_agents,
            repaired_tasks: self.repaired_tasks,
            repaired_sessions: self.repaired_sessions,
            notes: texts(self.notes@),
        }
    }
}

impl Dup for RepairSummary {
    fn dup(&self) -> RepairSummary {
        RepairSummary {
            requested_by: self.requested_by.clone(),
            repaired_agents: self.repaired_agents,
            repaired_tasks: self.repaired_tasks,
            repaired_sessions: self.repaired_sessions,
            notes: copy_texts(&self.notes),
        }
    }
}

#[derive(Debug)]
pub struct AgentContextSource {
    pub kind: AgentContextSourceKind,
    pub path: String,
    pub exists: bool,
}

#[verifier::ext_equal]
pub struct SourceModel {
    pub kind: AgentContextSourceKind,
    pub path: Seq<char>,
    pub exists: bool,
}

impl View for AgentContextSource {
    type V = SourceModel;

    open spec fn view(&self) -> SourceModel {
        SourceModel {
            kind: self.kind,
            path: self.path@,
            exists: self.exists,
        }
    }
}

impl Dup for AgentContextSource {
    fn dup(&self) -> AgentContextSource {
        AgentContextSource {
            kind: self.kind,
            path: self.path.clone(),
            exists: self.exists,
        }
    }
}

#[derive(Debug)]
pub struct AgentContextView {
    pub agent: AgentSummary,
    pub current_task: Option<TaskSummary>,
    pub latest_decision: Option<DecisionSummary>,
    pub current_session: Option<SessionSummary>,
    pub context_sources: Vec<AgentContextSource>,
}

#[verifier::ext_equal]
pub struct AgentContextModel {
    pub agent: AgentModel,
    pub current_task: Option<TaskModel>,
    pub latest_decision: Option<DecisionModel>,
    pub current_session: Option<SessionModel>,
    pub context_sources: Seq<SourceModel>,
}

impl View for AgentContextView {
    type V = AgentContextModel;

    open spec fn view(&self) -> AgentContextModel {
        AgentContextModel {
            agent: self.agent@,
            current_task: view_opt(self.current_task),
            latest_decision: view_opt(self.latest_decision),
            current_session: view_opt(self.current_session),
            context_sources: views(self.context_sources@),
        }
    }
}

impl Dup for AgentContextView {
    fn dup(&self) -> AgentContextView {
        AgentContextView {
            agent: self.agent.dup(),
            current_task: dup_opt(&self.current_task),
            latest_decision: dup_opt(&self.latest_decision),
            current_session: dup_opt(&self.current_session),
            context_sources: dup_all(&self.context_sources),
        }
    }
}

#[derive(Debug)]
pub struct TaskContextView {
    pub task: TaskSummary,
    pub agent: Option<AgentSummary>,
    pub latest_decision: Option<DecisionSummary>,
    pub current_session: Option<SessionSummary>,
    pub context_sources: Vec<AgentContextSource>,
}

#[verifier::ext_equal]
pub struct TaskContextModel {
    pub task: TaskModel,
    pub agent: Option<AgentModel>,
    pub latest_decision: Option<DecisionModel>,
    pub current_session: Option<SessionModel>,
    pub context_sources: Seq<SourceModel>,
}

impl View for TaskContextView {
    type V = TaskContextModel;

    open spec fn view(&self) -> TaskContextModel {
        TaskContextModel {
            task: self.task@,
            agent: view_opt(self.agent),
            latest_decision: view_opt(self.latest_decision),
            current_session: view_opt(self.current_session),
            context_sources: views(self.context_sources@),
        }
    }
}

impl Dup for TaskContextView {
    fn dup(&self) -> TaskContextView {
        TaskContextView {
            task: self.task.dup(),
            agent: dup_opt(&self.agent),
            latest_decision: dup_opt(&self.latest_decision),
            current_session: dup_opt(&self.current_session),
            context_sources: dup_all(&self.context_sources),
        }
    }
}

/// What a child agent reports at the end of a round.
#[derive(Debug)]
pub struct TaskRoundPayload {
    pub status: TaskRoundStatus,
    pub summary: String,
    pub blocking: Option<String>,
    pub topic: Option<String>,
    pub details: Option<String>,
    pub reason: Option<String>,
    pub next_suggestion: Option<String>,
    pub changed_files: Vec<String>,
}

#[verifier::ext_equal]
pub struct PayloadModel {
    pub status: TaskRoundStatus,
    pub summary: Seq<char>,
    pub blocking: Option<Seq<char>>,
    pub topic: Option<Seq<char>>,
    pub details: Option<Seq<char>>,
    pub reason: Option<Seq<char>>,
    pub next_suggestion: Option<Seq<char>>,
    pub changed_files: Seq<Seq<char>>,
}

impl View for TaskRoundPayload {
    type V = PayloadModel;

    open spec fn view(&self) -> PayloadModel {
        PayloadModel {
            status: self.status,
            summary: self.summary@,
            blocking: opt_text(self.blocking),
            topic: opt_text(self.topic),
            details: opt_text(self.details),
            reason: opt_text(self.reason),
            next_suggestion: opt_text(self.next_suggestion),
            changed_files: texts(self.changed_files@),
        }
    }
}

impl Dup for TaskRoundPayload {
    fn dup(&self) -> TaskRoundPayload {
        TaskRoundPayload {
            status: self.status,
            summary: self.summary.clone(),
            blocking: copy_text(&self.blocking),
            topic: copy_text(&self.topic),
            details: copy_text(&self.details),
            reason: copy_text(&self.reason),
            next_suggestion: copy_text(&self.next_suggestion),
            changed_files: copy_texts(&self.changed_files),
        }
    }
}

/// What a new task asks for.
#[derive(Debug)]
pub struct TaskDraftPayload {
    pub title: String,
    pub summary: String,
    pub effort: Option<String>,
    pub read_scope: Vec<String>,
    pub write_scope: Vec<String>,
    pub acceptance: Vec<String>,
}

#[verifier::ext_equal]
pub struct DraftModel {
    pub title: Seq<char>,
    pub summary: Seq<char>,
    pub effort: Option<Seq<char>>,
    pub read_scope: Seq<Seq<char>>,
    pub write_scope: Seq<Seq<char>>,
    pub acceptance: Seq<Seq<char>>,
}

impl View for TaskDraftPayload {
    type V = DraftModel;

    open spec fn view(&self) -> DraftModel {
        DraftModel {
            title: self.title@,
            summary: self.summary@,
            effort: opt_text(self.effort),
            read_scope: texts(self.read_scope@),
            write_scope: texts(self.write_scope@),
            acceptance: texts(self.acceptance@),
        }
    }
}

impl Dup for TaskDraftPayload {
    fn dup(&self) -> TaskDraftPayload {
        TaskDraftPayload {
            title: self.title.clone(),
            summary: self.summary.clone(),
            effort: copy_text(&self.effort),
            read_scope: copy_texts(&self.read_scope),
            write_scope: copy_texts(&self.write_scope),
            acceptance: copy_texts(&self.acceptance),
        }
    }
}

/// A message that waits in an agent's mailbox until it is acknowledged.
#[derive(Debug)]
pub struct BridgeDelivery {
    pub delivery_id: u64,
    pub agent: String,
    pub kind: BridgeDeliveryKind,
    pub task: Option<TaskSummary>,
    pub decision: Option<DecisionSummary>,
    pub reason: Option<String>,
    pub created_at: Timestamp,
}

#[verifier::ext_equal]
pub struct DeliveryModel {
    pub delivery_id: u64,
    pub agent: Seq<char>,
    pub kind: BridgeDeliveryKind,
    pub task: Option<TaskModel>,
    pub decision: Option<DecisionModel>,
    pub reason: Option<Seq<char>>,
    pub created_at: Timestamp,
}

impl View for BridgeDelivery {
    type V = DeliveryModel;

    open spec fn view(&self) -> DeliveryModel {
        DeliveryModel {
            delivery_id: self.delivery_id,
            agent: self.agent@,
            kind: self.kind,
            task: view_opt(self.task),
            decision: view_opt(self.decision),
            reason: opt_text(self.reason),
            created_at: self.created_at,
        }
    }
}

impl Dup for BridgeDelivery {
    fn dup(&self) -> BridgeDelivery {
        BridgeDelivery {
            delivery_id: self.delivery_id,
            agent: self.agent.clone(),
            kind: self.kind,
            task: dup_opt(&self.task),
            decision: dup_opt(&self.decision),
            reason: copy_text(&self.reason),
            created_at: self.created_at,
        }
    }
}

#[derive(Debug)]
pub struct BridgeSyncSnapshot {
    pub agent: AgentSummary,
    pub current_task: Option<TaskSummary>,
    pub latest_decision: Option<DecisionSummary>,
}

#[verifier::ext_equal]
pub struct SyncModel {
    pub agent: AgentModel,
    pub current_task: Option<TaskModel>,
    pub latest_decision: Option<DecisionModel>,
}

impl View for BridgeSyncSnapshot {
    type V = SyncModel;

    open spec fn view(&self) -> SyncModel {
        SyncModel {
            agent: self.agent@,
            current_task: view_opt(self.current_task),
            latest_decision: view_opt(self.latest_decision),
        }
    }
}

impl Dup for BridgeSyncSnapshot {
    fn dup(&self) -> BridgeSyncSnapshot {
        BridgeSyncSnapshot {
            agent: self.agent.dup(),
            current_task: dup_opt(&self.current_task),
            latest_decision: dup_opt(&self.latest_decision),
        }
    }
}

#[derive(Debug)]
pub struct DashboardSnapshot {
    pub agents: Vec<AgentSummary>,
    pub tasks: Vec<TaskSummary>,
    pub decisions: Vec<DecisionSummary>,
    pub sessions: Vec<SessionSummary>,
    pub recent_streams: Vec<StreamEventRecord>,
    pub recent_runtime_events: Vec<RuntimeEventRecord>,
    pub generated_at: Timestamp,
}

#[verifier::ext_equal]
pub struct SnapshotModel {
    pub agents: Seq<AgentModel>,
    pub tasks: Seq<TaskModel>,
    pub decisions: Seq<DecisionModel>,
    pub sessions: Seq<SessionModel>,
    pub recent_streams: Seq<StreamModel>,
    pub recent_runtime_events: Seq<RuntimeEventModel>,
    pub generated_at: Timestamp,
}

impl View for DashboardSnapshot {
    type V = SnapshotModel;

    open spec fn view(&self) -> SnapshotModel {
        SnapshotModel {
            agents: views(self.agents@),
            tasks: views(self.tasks@),
            decisions: views(self.decisions@),
            sessions: views(self.sessions@),
            recent_streams: views(self.recent_streams@),
            recent_runtime_events: views(self.recent_runtime_events@),
            generated_at: self.generated_at,
        }
    }
}

impl Dup for DashboardSnapshot {
    fn dup(&self) -> DashboardSnapshot {
        DashboardSnapshot {
            agents: dup_all(&self.agents),
            tasks: dup_all(&self.tasks),
            decisions: dup_all(&self.decisions),
            sessions: dup_all(&self.sessions),
            recent_streams: dup_all(&self.recent_streams),
            recent_runtime_events: dup_all(&self.recent_runtime_events),
            generated_at: self.generated_at,
        }
    }
}

/// What dashboards are told.
#[allow(inconsistent_fields)]
#[derive(Debug)]
pub enum DashboardEvent {
    Snapshot { snapshot: DashboardSnapshot },
    AgentStateChanged { agent: AgentSummary },
    TaskEvent { task: TaskSummary, event_type: String },
    DecisionEvent { decision: DecisionSummary, event_type: String },
    SessionEvent { session: SessionSummary, event_type: String },
    StreamChunk { event: StreamEventRecord },
    RuntimeEvent { event: RuntimeEventRecord },
}

#[allow(inconsistent_fields)]
#[verifier::ext_equal]
pub enum DashboardModel {
    Snapshot { snapshot: SnapshotModel },
    AgentStateChanged { agent: AgentModel },
    TaskEvent { task: TaskModel, event_type: Seq<char> },
    DecisionEvent { decision: DecisionModel, event_type: Seq<char> },
    SessionEvent { session: SessionModel, event_type: Seq<char> },
    StreamChunk { event: StreamModel },
    RuntimeEvent { event: RuntimeEventModel },
}

impl View for DashboardEvent {
    type V = DashboardModel;

    open spec fn view(&self) -> DashboardModel {
        match *self {
            DashboardEvent::Snapshot { snapshot } => DashboardModel::Snapshot { snapshot: snapshot@ },
            DashboardEvent::AgentStateChanged { agent } => DashboardModel::AgentStateChanged { agent: agent@ },
            DashboardEvent::TaskEvent { task, event_type } => DashboardModel::TaskEvent { task: task@, event_type: event_type@ },
            DashboardEvent::DecisionEvent { decision, event_type } => DashboardModel::DecisionEvent { decision: decision@, event_type: event_type@ },
            DashboardEvent::SessionEvent { session, event_type } => DashboardModel::SessionEvent { session: session@, event_type: event_type@ },
            DashboardEvent::StreamChunk { event } => DashboardModel::StreamChunk { event: event@ },
            DashboardEvent::RuntimeEvent { event } => DashboardModel::RuntimeEvent { event: event@ },
        }
    }
}

#[derive(Debug)]
pub enum WsClientMessage {
    Subscribe { channels: Vec<String> },
    RequestSnapshot,
    ControlRequest { request_id: String, request: ControlRequest },
    Ping,
}

#[derive(Debug)]
pub enum BridgeClientMessage {
    Hello { agent: String, mode: BridgeMode, last_ack_delivery_id: Option<u64> },
    Heartbeat { session_id: String },
    DeliveryAck { session_id: String, delivery_id: u64 },
    RequestSync { session_id: String },
    Ping,
}

/// What the daemon tells a bridge.
#[allow(inconsistent_fields)]
#[derive(Debug)]
pub enum BridgeServerMessage {
    Welcome { session_id: String, snapshot: BridgeSyncSnapshot, pending_deliveries: Vec<BridgeDelivery> },
    Delivery { session_id: String, delivery: BridgeDelivery },
    SyncSnapshot { session_id: String, reason: String, snapshot: BridgeSyncSnapshot, pending_deliveries: Vec<BridgeDelivery> },
    Error { message: String },
    Pong,
}

#[allow(inconsistent_fields)]
#[verifier::ext_equal]
pub enum BridgeServerModel {
    Welcome { session_id: Seq<char>, snapshot: SyncModel, pending_deliveries: Seq<DeliveryModel> },
    Delivery { session_id: Seq<char>, delivery: DeliveryModel },
    SyncSnapshot { session_id: Seq<char>, reason: Seq<char>, snapshot: SyncModel, pending_deliveries: Seq<DeliveryModel> },
    Error { message: Seq<char> },
    Pong,
}

impl View for BridgeServerMessage {
    type V = BridgeServerModel;

    open spec fn view(&self) -> BridgeServerModel {
        match *self {
            BridgeServerMessage::Welcome { session_id, snapshot, pending_deliveries } => BridgeServerModel::Welcome { session_id: session_id@, snapshot: snapshot@, pending_deliveries: views(pending_deliveries@) },
            BridgeServerMessage::Delivery { session_id, delivery } => BridgeServerModel::Delivery { session_id: session_id@, delivery: delivery@ },
            BridgeServerMessage::SyncSnapshot { session_id, reason, snapshot, pending_deliveries } => BridgeServerModel::SyncSnapshot { session_id: session_id@, reason: reason@, snapshot: snapshot@, pending_deliveries: views(pending_deliveries@) },
            BridgeServerMessage::Error { message } => BridgeServerModel::Error { message: message@ },
            BridgeServerMessage::Pong => BridgeServerModel::Pong,
        }
    }
}

} // verus!
