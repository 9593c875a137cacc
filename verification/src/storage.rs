//! The records as rows of the database: what is stored for each, and what is
//! read back.

use vstd::prelude::*;

use crate::failure::{seen, Failure};
use crate::json::{json_text, json_texts, parse_json, read_json, render_json, JsonModel, JsonValue};
use crate::models::{
    AgentBootstrapState, AgentModel, AgentRole, AgentSessionState, AgentSummary, AppServerOwner,
    BridgeConnectionState, BridgeMode, CodexSessionStatus, DecisionModel, DecisionSummary,
    RuntimeEventModel, RuntimeEventRecord, SessionMode, SessionModel, SessionSummary,
    StreamEventRecord, StreamModel, TaskModel, TaskState, TaskSummary, VisiblePaneKind,
};
use crate::text::{copy_text, opt_text, same_text, text, texts};
use crate::time::{parse_rfc3339, read_rfc3339, rfc3339, to_rfc3339, Timestamp};

verus! {

pub open spec fn stored_role(s: Seq<char>) -> AgentRole {
    if s == "main"@ {
        AgentRole::Main
    } else {
        AgentRole::Child
    }
}

/// Reads the value; an unknown name counts as the default.
pub fn parse_role(s: &str) -> (r: AgentRole)
    ensures
        r == stored_role(s@),
{
    if same_text(s, "main") {
        AgentRole::Main
    } else {
        AgentRole::Child
    }
}

/// What is stored is read back.
pub proof fn role_is_read_back(v: AgentRole)
    ensures
        stored_role(v.label()) == v,
{
    reveal_strlit("main");
    assert("main"@.len() == 4);
    reveal_strlit("child");
    assert("child"@.len() == 5);
}

pub open spec fn stored_agent_state(s: Seq<char>) -> AgentSessionState {
    if s == "busy"@ {
        AgentSessionState::Busy
    } else if s == "blocked"@ {
        AgentSessionState::Blocked
    } else if s == "offline"@ {
        AgentSessionState::Offline
    } else {
        AgentSessionState::Idle
    }
}

/// Reads the value; an unknown name counts as the default.
pub fn parse_agent_state(s: &str) -> (r: AgentSessionState)
    ensures
        r == stored_agent_state(s@),
{
    if same_text(s, "busy") {
        AgentSessionState::Busy
    } else if same_text(s, "blocked") {
        AgentSessionState::Blocked
    } else if same_text(s, "offline") {
        AgentSessionState::Offline
    } else {
        AgentSessionState::Idle
    }
}

/// What is stored is read back.
pub proof fn agent_state_is_read_back(v: AgentSessionState)
    ensures
        stored_agent_state(v.label()) == v,
{
    reveal_strlit("idle");
    assert("idle"@.len() == 4);
    reveal_strlit("busy");
    assert("busy"@.len() == 4);
    reveal_strlit("blocked");
    assert("blocked"@.len() == 7);
    reveal_strlit("offline");
    assert("offline"@.len() == 7);
    assert("idle"@[0] != "busy"@[0]);
    assert("blocked"@[0] != "offline"@[0]);
}

pub open spec fn stored_bootstrap_state(s: Seq<char>) -> AgentBootstrapState {
    if s == "ready"@ {
        AgentBootstrapState::Ready
    } else {
        AgentBootstrapState::AwaitingInit
    }
}

/// Reads the value; an unknown name counts as the default.
pub fn parse_bootstrap_state(s: &str) -> (r: AgentBootstrapState)
    ensures
        r == stored_bootstrap_state(s@),
{
    if same_text(s, "ready") {
        AgentBootstrapState::Ready
    } else {
        AgentBootstrapState::AwaitingInit
    }
}

/// What is stored is read back.
pub proof fn bootstrap_state_is_read_back(v: AgentBootstrapState)
    ensures
        stored_bootstrap_state(v.label()) == v,
{
    reveal_strlit("awaiting_init");
    assert("awaiting_init"@.len() == 13);
    reveal_strlit("ready");
    assert("ready"@.len() == 5);
}

pub open spec fn stored_bridge_state(s: Seq<char>) -> BridgeConnectionState {
    if s == "connected"@ {
        BridgeConnectionState::Connected
    } else {
        BridgeConnectionState::Disconnected
    }
}

/// Reads the value; an unknown name counts as the default.
pub fn parse_bridge_state(s: &str) -> (r: BridgeConnectionState)
    ensures
        r == stored_bridge_state(s@),
{
    if same_text(s, "connected") {
        BridgeConnectionState::Connected
    } else {
        BridgeConnectionState::Disconnected
    }
}

/// What is stored is read back.
pub proof fn bridge_state_is_read_back(v: BridgeConnectionState)
    ensures
        stored_bridge_state(v.label()) == v,
{
    reveal_strlit("disconnected");
    assert("disconnected"@.len() == 12);
    reveal_strlit("connected");
    assert("connected"@.len() == 9);
}

pub open spec fn stored_bridge_mode(s: Seq<char>) -> BridgeMode {
    if s == "autorun"@ {
        BridgeMode::Autorun
    } else {
        BridgeMode::Passive
    }
}

/// Reads the value; an unknown name counts as the default.
pub fn parse_bridge_mode(s: &str) -> (r: BridgeMode)
    ensures
        r == stored_bridge_mode(s@),
{
    if same_text(s, "autorun") {
        BridgeMode::Autorun
    } else {
        BridgeMode::Passive
    }
}

/// What is stored is read back.
pub proof fn bridge_mode_is_read_back(v: BridgeMode)
    ensures
        stored_bridge_mode(v.label()) == v,
{
    reveal_strlit("passive");
    assert("passive"@.len() == 7);
    reveal_strlit("autorun");
    assert("autorun"@.len() == 7);
    assert("passive"@[0] != "autorun"@[0]);
}

pub open spec fn stored_app_server_owner(s: Seq<char>) -> AppServerOwner {
    if s == "daemon"@ {
        AppServerOwner::Daemon
    } else {
        AppServerOwner::Bridge
    }
}

/// Reads the value; an unknown name counts as the default.
pub fn parse_app_server_owner(s: &str) -> (r: AppServerOwner)
    ensures
        r == stored_app_server_owner(s@),
{
    if same_text(s, "daemon") {
        AppServerOwner::Daemon
    } else {
        AppServerOwner::Bridge
    }
}

/// What is stored is read back.
pub proof fn app_server_owner_is_read_back(v: AppServerOwner)
    ensures
        stored_app_server_owner(v.label()) == v,
{
    reveal_strlit("bridge");
    assert("bridge"@.len() == 6);
    reveal_strlit("daemon");
    assert("daemon"@.len() == 6);
    assert("bridge"@[0] != "daemon"@[0]);
}

pub open spec fn stored_visible_pane_kind(s: Seq<char>) -> VisiblePaneKind {
    if s == "view"@ {
        VisiblePaneKind::View
    } else {
        VisiblePaneKind::Shell
    }
}

/// Reads the value; an unknown name counts as the default.
pub fn parse_visible_pane_kind(s: &str) -> (r: VisiblePaneKind)
    ensures
        r == stored_visible_pane_kind(s@),
{
    if same_text(s, "view") {
        VisiblePaneKind::View
    } else {
        VisiblePaneKind::Shell
    }
}

/// What is stored is read back.
pub proof fn visible_pane_kind_is_read_back(v: VisiblePaneKind)
    ensures
        stored_visible_pane_kind(v.label()) == v,
{
    reveal_strlit("shell");
    assert("shell"@.len() == 5);
    reveal_strlit("view");
    assert("view"@.len() == 4);
}

pub open spec fn stored_session_mode(s: Seq<char>) -> SessionMode {
    if s == "pty"@ {
        SessionMode::Pty
    } else if s == "app_server"@ {
        SessionMode::AppServer
    } else {
        SessionMode::Round
    }
}

/// Reads the value; an unknown name counts as the default.
pub fn parse_session_mode(s: &str) -> (r: SessionMode)
    ensures
        r == stored_session_mode(s@),
{
    if same_text(s, "pty") {
        SessionMode::Pty
    } else if same_text(s, "app_server") {
        SessionMode::AppServer
    } else {
        SessionMode::Round
    }
}

/// What is stored is read back.
pub proof fn session_mode_is_read_back(v: SessionMode)
    ensures
        stored_session_mode(v.label()) == v,
{
    reveal_strlit("round");
    assert("round"@.len() == 5);
    reveal_strlit("pty");
    assert("pty"@.len() == 3);
    reveal_strlit("app_server");
    assert("app_server"@.len() == 10);
}

pub open spec fn stored_codex_session_status(s: Seq<char>) -> CodexSessionStatus {
    if s == "succeeded"@ {
        CodexSessionStatus::Succeeded
    } else if s == "failed"@ {
        CodexSessionStatus::Failed
    } else {
        CodexSessionStatus::Running
    }
}

/// Reads the value; an unknown name counts as the default.
pub fn parse_codex_session_status(s: &str) -> (r: CodexSessionStatus)
    ensures
        r == stored_codex_session_status(s@),
{
    if same_text(s, "succeeded") {
        CodexSessionStatus::Succeeded
    } else if same_text(s, "failed") {
        CodexSessionStatus::Failed
    } else {
        CodexSessionStatus::Running
    }
}

/// What is stored is read back.
pub proof fn codex_session_status_is_read_back(v: CodexSessionStatus)
    ensures
        stored_codex_session_status(v.label()) == v,
{
    reveal_strlit("running");
    assert("running"@.len() == 7);
    reveal_strlit("succeeded");
    assert("succeeded"@.len() == 9);
    reveal_strlit("failed");
    assert("failed"@.len() == 6);
}

pub open spec fn stored_task_state(s: Seq<char>) -> TaskState {
    if s == "accepted"@ {
        TaskState::Accepted
    } else if s == "running"@ {
        TaskState::Running
    } else if s == "completed"@ {
        TaskState::Completed
    } else if s == "reported"@ {
        TaskState::Reported
    } else if s == "analyzed"@ {
        TaskState::Analyzed
    } else if s == "decision_sent"@ {
        TaskState::DecisionSent
    } else if s == "closed"@ {
        TaskState::Closed
    } else if s == "blocked_waiting_decision"@ {
        TaskState::BlockedWaitingDecision
    } else if s == "cancelled"@ {
        TaskState::Cancelled
    } else if s == "failed"@ {
        TaskState::Failed
    } else {
        TaskState::Pending
    }
}

/// Reads the value; an unknown name counts as the default.
pub fn parse_task_state(s: &str) -> (r: TaskState)
    ensures
        r == stored_task_state(s@),
{
    if same_text(s, "accepted") {
        TaskState::Accepted
    } else if same_text(s, "running") {
        TaskState::Running
    } else if same_text(s, "completed") {
        TaskState::Completed
    } else if same_text(s, "reported") {
        TaskState::Reported
    } else if same_text(s, "analyzed") {
        TaskState::Analyzed
    } else if same_text(s, "decision_sent") {
        TaskState::DecisionSent
    } else if same_text(s, "closed") {
        TaskState::Closed
    } else if same_text(s, "blocked_waiting_decision") {
        TaskState::BlockedWaitingDecision
    } else if same_text(s, "cancelled") {
        TaskState::Cancelled
    } else if same_text(s, "failed") {
        TaskState::Failed
    } else {
        TaskState::Pending
    }
}

/// What is stored is read back.
pub proof fn task_state_is_read_back(v: TaskState)
    ensures
        stored_task_state(v.label()) == v,
{
    reveal_strlit("pending");
    assert("pending"@.len() == 7);
    reveal_strlit("accepted");
    assert("accepted"@.len() == 8);
    reveal_strlit("running");
    assert("running"@.len() == 7);
    reveal_strlit("completed");
    assert("completed"@.len() == 9);
    reveal_strlit("reported");
    assert("reported"@.len() == 8);
    reveal_strlit("analyzed");
    assert("analyzed"@.len() == 8);
    reveal_strlit("decision_sent");
    assert("decision_sent"@.len() == 13);
    reveal_strlit("closed");
    assert("closed"@.len() == 6);
    reveal_strlit("blocked_waiting_decision");
    assert("blocked_waiting_decision"@.len() == 24);
    reveal_strlit("cancelled");
    assert("cancelled"@.len() == 9);
    reveal_strlit("failed");
    assert("failed"@.len() == 6);
    assert("pending"@[0] != "running"@[0]);
    assert("accepted"@[0] != "reported"@[0]);
    assert("accepted"@[1] != "analyzed"@[1]);
    assert("completed"@[1] != "cancelled"@[1]);
    assert("reported"@[0] != "analyzed"@[0]);
    assert("closed"@[0] != "failed"@[0]);
}

pub open spec fn stored_time(o: Option<Timestamp>) -> Option<Seq<char>> {
    match o {
        Some(t) => Some(rfc3339(t)),
        None => None,
    }
}

/// The instant of a text; a text that is none counts as missing.
pub open spec fn read_time(o: Option<Seq<char>>) -> Option<Timestamp> {
    match o {
        Some(s) => read_rfc3339(s),
        None => None,
    }
}

/// Whether the instant, where there is one, is read back unchanged.
pub open spec fn storable_time(o: Option<Timestamp>) -> bool {
    match o {
        Some(t) => t.plain(),
        None => true,
    }
}

fn store_time(o: Option<Timestamp>) -> (r: Option<String>)
    ensures
        opt_text(r) == stored_time(o),
        storable_time(o) ==> read_time(stored_time(o)) == o,
{
    match o {
        Some(t) => Some(to_rfc3339(t)),
        None => None,
    }
}

pub fn parse_datetime(value: &Option<String>) -> (r: Option<Timestamp>)
    ensures
        r == read_time(opt_text(*value)),
{
    match value {
        Some(s) => parse_rfc3339(s.as_str()),
        None => None,
    }
}

/// The instant of a text that has to be one; otherwise the text.
pub open spec fn required_time(s: Seq<char>) -> Result<Timestamp, Seq<char>> {
    match read_rfc3339(s) {
        Some(t) => Ok(t),
        None => Err(s),
    }
}

pub fn parse_required_datetime(value: &str) -> (r: Result<Timestamp, Failure>)
    ensures
        seen(r) == required_time(value@),
{
    match parse_rfc3339(value) {
        Some(t) => Ok(t),
        None => Err(Failure::new(text(value))),
    }
}

/// The texts as one text.
pub fn serialize_string_list(values: &Vec<String>) -> (r: String)
    ensures
        r@ == json_text(json_texts(texts(values@))),
        string_list_in(r@) == texts(values@),
{
    let mut items: Vec<JsonValue> = Vec::new();
    let mut i: usize = 0;
    while i < values.len()
        invariant
            i <= values.len(),
            items.len() == i,
            forall|j: int| 0 <= j < i ==> (#[trigger] items@[j])@ == JsonModel::Text(values@[j]@),
        decreases values.len() - i,
    {
        items.push(JsonValue::Text(values[i].clone()));
        i += 1;
    }
    let list = JsonValue::Array(items);
    assert(list@->Array_0 =~= json_texts(texts(values@))->Array_0);
    let r = render_json(&list);
    assert(all_texts(list@->Array_0));
    assert(texts_of(list@->Array_0) =~= texts(values@));
    r
}

pub open spec fn all_texts(items: Seq<JsonModel>) -> bool {
    forall|i: int| 0 <= i < items.len() ==> #[trigger] items[i] is Text
}

pub open spec fn texts_of(items: Seq<JsonModel>) -> Seq<Seq<char>> {
    items.map_values(|v: JsonModel| v->Text_0)
}

/// The texts of a JSON array of texts; anything else counts as no texts.
pub open spec fn string_list_in(s: Seq<char>) -> Seq<Seq<char>> {
    match read_json(s) {
        Ok(JsonModel::Array(items)) => if all_texts(items) {
            texts_of(items)
        } else {
            Seq::empty()
        },
        _ => Seq::empty(),
    }
}

pub fn deserialize_string_list(value: &str) -> (r: Vec<String>)
    ensures
        texts(r@) == string_list_in(value@),
{
    let mut list: Vec<String> = Vec::new();
    match parse_json(value) {
        Ok(JsonValue::Array(items)) => {
            let ghost all = JsonValue::Array(items)@->Array_0;
            let mut i: usize = 0;
            while i < items.len()
                invariant
                    i <= items.len(),
                    list.len() == i,
                    all == JsonValue::Array(items)@->Array_0,
                    all.len() == items.len(),
                    read_json(value@) == Ok::<JsonModel, Seq<char>>(JsonModel::Array(all)),
                    forall|j: int| 0 <= j < i ==> #[trigger] all[j] is Text,
                    forall|j: int| 0 <= j < i ==> (#[trigger] list@[j])@ == all[j]->Text_0,
                decreases items.len() - i,
            {
                assert(all[i as int] == items@[i as int]@);
                match items[i].as_text() {
                    Some(s) => {
                        list.push(text(s));
                    },
                    None => {
                        assert(!all_texts(all));
                        let none: Vec<String> = Vec::new();
                        assert(texts(none@) =~= Seq::empty());
                        return none;
                    },
                }
                i += 1;
            }
            assert(texts(list@) =~= texts_of(all));
        },
        _ => {
            assert(texts(list@) =~= Seq::empty());
        },
    }
    list
}

/// A number as the database holds it: one that does not fit becomes the largest.
pub open spec fn stored_number(n: u64) -> i64 {
    if n <= i64::MAX {
        n as i64
    } else {
        i64::MAX
    }
}

fn store_number(n: u64) -> (r: i64)
    ensures
        r == stored_number(n),
{
    if n <= 9223372036854775807 {
        n as i64
    } else {
        i64::MAX
    }
}

/// A number that was stored: one below zero counts as zero.
pub open spec fn read_number(n: i64) -> u64 {
    if n < 0 {
        0
    } else {
        n as u64
    }
}

fn load_number(n: i64) -> (r: u64)
    ensures
        r == read_number(n),
{
    if n < 0 {
        0
    } else {
        n as u64
    }
}

/// A small number that was stored: one below zero counts as zero, and of a
/// larger one only the low part is kept.
pub open spec fn read_small(n: i64) -> u32 {
    if n < 0 {
        0
    } else {
        n as u32
    }
}

fn load_small(n: i64) -> (r: u32)
    ensures
        r == read_small(n),
{
    if n < 0 {
        0
    } else {
        #[verifier::truncate]
        (n as u32)
    }
}

/// A process number that was stored: one that cannot be one counts as missing.
pub open spec fn read_pid(o: Option<i64>) -> Option<u32> {
    match o {
        Some(n) => if 0 <= n <= u32::MAX {
            Some(n as u32)
        } else {
            None
        },
        None => None,
    }
}

fn load_pid(o: Option<i64>) -> (r: Option<u32>)
    ensures
        r == read_pid(o),
{
    match o {
        Some(n) => if 0 <= n && n <= 4294967295 {
            Some(n as u32)
        } else {
            None
        },
        None => None,
    }
}

pub open spec fn stored_pid(o: Option<u32>) -> Option<i64> {
    match o {
        Some(n) => Some(n as i64),
        None => None,
    }
}

fn store_pid(o: Option<u32>) -> (r: Option<i64>)
    ensures
        r == stored_pid(o),
{
    match o {
        Some(n) => Some(n as i64),
        None => None,
    }
}

pub open spec fn stored_opt_app_server_owner(o: Option<AppServerOwner>) -> Option<Seq<char>> {
    match o {
        Some(v) => Some(v.label()),
        None => None,
    }
}

fn store_opt_app_server_owner(o: Option<AppServerOwner>) -> (r: Option<String>)
    ensures
        opt_text(r) == stored_opt_app_server_owner(o),
{
    match o {
        Some(v) => Some(text(v.as_label())),
        None => None,
    }
}

pub open spec fn read_opt_app_server_owner(o: Option<Seq<char>>) -> Option<AppServerOwner> {
    match o {
        Some(s) => Some(stored_app_server_owner(s)),
        None => None,
    }
}

fn load_opt_app_server_owner(o: &Option<String>) -> (r: Option<AppServerOwner>)
    ensures
        r == read_opt_app_server_owner(opt_text(*o)),
{
    match o {
        Some(s) => Some(parse_app_server_owner(s.as_str())),
        None => None,
    }
}

pub open spec fn stored_opt_bridge_mode(o: Option<BridgeMode>) -> Option<Seq<char>> {
    match o {
        Some(v) => Some(v.label()),
        None => None,
    }
}

fn store_opt_bridge_mode(o: Option<BridgeMode>) -> (r: Option<String>)
    ensures
        opt_text(r) == stored_opt_bridge_mode(o),
{
    match o {
        Some(v) => Some(text(v.as_label())),
        None => None,
    }
}

pub open spec fn read_opt_bridge_mode(o: Option<Seq<char>>) -> Option<BridgeMode> {
    match o {
        Some(s) => Some(stored_bridge_mode(s)),
        None => None,
    }
}

fn load_opt_bridge_mode(o: &Option<String>) -> (r: Option<BridgeMode>)
    ensures
        r == read_opt_bridge_mode(opt_text(*o)),
{
    match o {
        Some(s) => Some(parse_bridge_mode(s.as_str())),
        None => None,
    }
}

pub open spec fn stored_opt_visible_pane_kind(o: Option<VisiblePaneKind>) -> Option<Seq<char>> {
    match o {
        Some(v) => Some(v.label()),
        None => None,
    }
}

fn store_opt_visible_pane_kind(o: Option<VisiblePaneKind>) -> (r: Option<String>)
    ensures
        opt_text(r) == stored_opt_visible_pane_kind(o),
{
    match o {
        Some(v) => Some(text(v.as_label())),
        None => None,
    }
}

pub open spec fn read_opt_visible_pane_kind(o: Option<Seq<char>>) -> Option<VisiblePaneKind> {
    match o {
        Some(s) => Some(stored_visible_pane_kind(s)),
        None => None,
    }
}

fn load_opt_visible_pane_kind(o: &Option<String>) -> (r: Option<VisiblePaneKind>)
    ensures
        r == read_opt_visible_pane_kind(opt_text(*o)),
{
    match o {
        Some(s) => Some(parse_visible_pane_kind(s.as_str())),
        None => None,
    }
}

/// What the database holds of an agent.
#[derive(Debug)]
pub struct AgentRow {
    pub name: String,
    pub role: String,
    pub repo_name: Option<String>,
    pub cwd: String,
    pub prompt_path: Option<String>,
    pub thread_id: Option<String>,
    pub app_server_url: Option<String>,
    pub app_server_owner: Option<String>,
    pub app_server_registered_at: Option<String>,
    pub visible_pane_pid: Option<i64>,
    pub visible_pane_kind: Option<String>,
    pub visible_pane_registered_at: Option<String>,
    pub current_session_id: Option<String>,
    pub state: String,
    pub bootstrap_state: String,
    pub bootstrap_summary: Option<String>,
    pub bootstrap_completed_at: Option<String>,
    pub current_task_id: Option<String>,
    pub last_output_at: Option<String>,
    pub last_heartbeat_at: Option<String>,
    pub bridge_state: String,
    pub bridge_mode: Option<String>,
    pub bridge_session_id: Option<String>,
    pub bridge_connected_at: Option<String>,
    pub bridge_last_seen_at: Option<String>,
    pub bridge_last_delivery_id: i64,
    pub bridge_last_ack_delivery_id: i64,
    pub bridge_pending_delivery_count: i64,
}

#[verifier::ext_equal]
pub struct AgentRowModel {
    pub name: Seq<char>,
    pub role: Seq<char>,
    pub repo_name: Option<Seq<char>>,
    pub cwd: Seq<char>,
    pub prompt_path: Option<Seq<char>>,
    pub thread_id: Option<Seq<char>>,
    pub app_server_url: Option<Seq<char>>,
    pub app_server_owner: Option<Seq<char>>,
    pub app_server_registered_at: Option<Seq<char>>,
    pub visible_pane_pid: Option<i64>,
    pub visible_pane_kind: Option<Seq<char>>,
    pub visible_pane_registered_at: Option<Seq<char>>,
    pub current_session_id: Option<Seq<char>>,
    pub state: Seq<char>,
    pub bootstrap_state: Seq<char>,
    pub bootstrap_summary: Option<Seq<char>>,
    pub bootstrap_completed_at: Option<Seq<char>>,
    pub current_task_id: Option<Seq<char>>,
    pub last_output_at: Option<Seq<char>>,
    pub last_heartbeat_at: Option<Seq<char>>,
    pub bridge_state: Seq<char>,
    pub bridge_mode: Option<Seq<char>>,
    pub bridge_session_id: Option<Seq<char>>,
    pub bridge_connected_at: Option<Seq<char>>,
    pub bridge_last_seen_at: Option<Seq<char>>,
    pub bridge_last_delivery_id: i64,
    pub bridge_last_ack_delivery_id: i64,
    pub bridge_pending_delivery_count: i64,
}

impl View for AgentRow {
    type V = AgentRowModel;

    open spec fn view(&self) -> AgentRowModel {
        AgentRowModel {
            name: self.name@,
            role: self.role@,
            repo_name: opt_text(self.repo_name),
            cwd: self.cwd@,
            prompt_path: opt_text(self.prompt_path),
            thread_id: opt_text(self.thread_id),
            app_server_url: opt_text(self.app_server_url),
            app_server_owner: opt_text(self.app_server_owner),
            app_server_registered_at: opt_text(self.app_server_registered_at),
            visible_pane_pid: self.visible_pane_pid,
            visible_pane_kind: opt_text(self.visible_pane_kind),
            visible_pane_registered_at: opt_text(self.visible_pane_registered_at),
            current_session_id: opt_text(self.current_session_id),
            state: self.state@,
            bootstrap_state: self.bootstrap_state@,
            bootstrap_summary: opt_text(self.bootstrap_summary),
            bootstrap_completed_at: opt_text(self.bootstrap_completed_at),
            current_task_id: opt_text(self.current_task_id),
            last_output_at: opt_text(self.last_output_at),
            last_heartbeat_at: opt_text(self.last_heartbeat_at),
            bridge_state: self.bridge_state@,
            bridge_mode: opt_text(self.bridge_mode),
            bridge_session_id: opt_text(self.bridge_session_id),
            bridge_connected_at: opt_text(self.bridge_connected_at),
            bridge_last_seen_at: opt_text(self.bridge_last_seen_at),
            bridge_last_delivery_id: self.bridge_last_delivery_id,
            bridge_last_ack_delivery_id: self.bridge_last_ack_delivery_id,
            bridge_pending_delivery_count: self.bridge_pending_delivery_count,
        }
    }
}

pub open spec fn agent_row(agent: AgentModel) -> AgentRowModel {
    AgentRowModel {
        name: agent.name,
        role: agent.role.label(),
        repo_name: agent.repo_name,
        cwd: agent.cwd,
        prompt_path: agent.prompt_path,
        thread_id: agent.thread_id,
        app_server_url: agent.app_server_url,
        app_server_owner: stored_opt_app_server_owner(agent.app_server_owner),
        app_server_registered_at: stored_time(agent.app_server_registered_at),
        visible_pane_pid: stored_pid(agent.visible_pane_pid),
        visible_pane_kind: stored_opt_visible_pane_kind(agent.visible_pane_kind),
        visible_pane_registered_at: stored_time(agent.visible_pane_registered_at),
        current_session_id: agent.current_session_id,
        state: agent.state.label(),
        bootstrap_state: agent.bootstrap_state.label(),
        bootstrap_summary: agent.bootstrap_summary,
        bootstrap_completed_at: stored_time(agent.bootstrap_completed_at),
        current_task_id: agent.current_task_id,
        last_output_at: stored_time(agent.last_output_at),
        last_heartbeat_at: stored_time(agent.last_heartbeat_at),
        bridge_state: agent.bridge_state.label(),
        bridge_mode: stored_opt_bridge_mode(agent.bridge_mode),
        bridge_session_id: agent.bridge_session_id,
        bridge_connected_at: stored_time(agent.bridge_connected_at),
        bridge_last_seen_at: stored_time(agent.bridge_last_seen_at),
        bridge_last_delivery_id: stored_number(agent.bridge_last_delivery_id),
        bridge_last_ack_delivery_id: stored_number(agent.bridge_last_ack_delivery_id),
        bridge_pending_delivery_count: agent.bridge_pending_delivery_count as i64,
    }
}

/// What is read back.
pub open spec fn agent_in(row: AgentRowModel) -> AgentModel {
    AgentModel {
        name: row.name,
        role: stored_role(row.role),
        repo_name: row.repo_name,
        cwd: row.cwd,
        prompt_path: row.prompt_path,
        thread_id: row.thread_id,
        app_server_url: row.app_server_url,
        app_server_owner: read_opt_app_server_owner(row.app_server_owner),
        app_server_registered_at: read_time(row.app_server_registered_at),
        visible_pane_pid: read_pid(row.visible_pane_pid),
        visible_pane_kind: read_opt_visible_pane_kind(row.visible_pane_kind),
        visible_pane_registered_at: read_time(row.visible_pane_registered_at),
        current_session_id: row.current_session_id,
        state: stored_agent_state(row.state),
        bootstrap_state: stored_bootstrap_state(row.bootstrap_state),
        bootstrap_summary: row.bootstrap_summary,
        bootstrap_completed_at: read_time(row.bootstrap_completed_at),
        current_task_id: row.current_task_id,
        last_output_at: read_time(row.last_output_at),
        last_heartbeat_at: read_time(row.last_heartbeat_at),
        bridge_state: stored_bridge_state(row.bridge_state),
        bridge_mode: read_opt_bridge_mode(row.bridge_mode),
        bridge_session_id: row.bridge_session_id,
        bridge_connected_at: read_time(row.bridge_connected_at),
        bridge_last_seen_at: read_time(row.bridge_last_seen_at),
        bridge_last_delivery_id: read_number(row.bridge_last_delivery_id),
        bridge_last_ack_delivery_id: read_number(row.bridge_last_ack_delivery_id),
        bridge_pending_delivery_count: read_small(row.bridge_pending_delivery_count),
    }
}

/// Whether the agent is read back unchanged.
pub open spec fn storable_agent(agent: AgentModel) -> bool {
    &&& storable_time(agent.app_server_registered_at)
    &&& storable_time(agent.visible_pane_registered_at)
    &&& storable_time(agent.bootstrap_completed_at)
    &&& storable_time(agent.last_output_at)
    &&& storable_time(agent.last_heartbeat_at)
    &&& storable_time(agent.bridge_connected_at)
    &&& storable_time(agent.bridge_last_seen_at)
    &&& agent.bridge_last_delivery_id <= i64::MAX
    &&& agent.bridge_last_ack_delivery_id <= i64::MAX
}

/// The row of the record. It is read back as the record that was stored.
pub fn to_agent_row(agent: &AgentSummary) -> (r: AgentRow)
    ensures
        r@ == agent_row(agent@),
        storable_agent(agent@) ==> agent_in(r@) == agent@,
{
    let r = AgentRow {
        name: agent.name.clone(),
        role: text(agent.role.as_label()),
        repo_name: copy_text(&agent.repo_name),
        cwd: agent.cwd.clone(),
        prompt_path: copy_text(&agent.prompt_path),
        thread_id: copy_text(&agent.thread_id),
        app_server_url: copy_text(&agent.app_server_url),
        app_server_owner: store_opt_app_server_owner(agent.app_server_owner),
        app_server_registered_at: store_time(agent.app_server_registered_at),
        visible_pane_pid: store_pid(agent.visible_pane_pid),
        visible_pane_kind: store_opt_visible_pane_kind(agent.visible_pane_kind),
        visible_pane_registered_at: store_time(agent.visible_pane_registered_at),
        current_session_id: copy_text(&agent.current_session_id),
        state: text(agent.state.as_label()),
        bootstrap_state: text(agent.bootstrap_state.as_label()),
        bootstrap_summary: copy_text(&agent.bootstrap_summary),
        bootstrap_completed_at: store_time(agent.bootstrap_completed_at),
        current_task_id: copy_text(&agent.current_task_id),
        last_output_at: store_time(agent.last_output_at),
        last_heartbeat_at: store_time(agent.last_heartbeat_at),
        bridge_state: text(agent.bridge_state.as_label()),
        bridge_mode: store_opt_bridge_mode(agent.bridge_mode),
        bridge_session_id: copy_text(&agent.bridge_session_id),
        bridge_connected_at: store_time(agent.bridge_connected_at),
        bridge_last_seen_at: store_time(agent.bridge_last_seen_at),
        bridge_last_delivery_id: store_number(agent.bridge_last_delivery_id),
        bridge_last_ack_delivery_id: store_number(agent.bridge_last_ack_delivery_id),
        bridge_pending_delivery_count: agent.bridge_pending_delivery_count as i64,
    };
    proof {
        role_is_read_back(agent.role);
        if let Some(v) = agent.app_server_owner {
            app_server_owner_is_read_back(v);
        }
        if let Some(v) = agent.visible_pane_kind {
            visible_pane_kind_is_read_back(v);
        }
        agent_state_is_read_back(agent.state);
        bootstrap_state_is_read_back(agent.bootstrap_state);
        bridge_state_is_read_back(agent.bridge_state);
        if let Some(v) = agent.bridge_mode {
            bridge_mode_is_read_back(v);
        }
    }
    r
}

pub fn from_agent_row(row: AgentRow) -> (r: AgentSummary)
    ensures
        r@ == agent_in(row@),
{
    AgentSummary {
        name: row.name,
        role: parse_role(row.role.as_str()),
        repo_name: row.repo_name,
        cwd: row.cwd,
        prompt_path: row.prompt_path,
        thread_id: row.thread_id,
        app_server_url: row.app_server_url,
        app_server_owner: load_opt_app_server_owner(&row.app_server_owner),
        app_server_registered_at: parse_datetime(&row.app_server_registered_at),
        visible_pane_pid: load_pid(row.visible_pane_pid),
        visible_pane_kind: load_opt_visible_pane_kind(&row.visible_pane_kind),
        visible_pane_registered_at: parse_datetime(&row.visible_pane_registered_at),
        current_session_id: row.current_session_id,
        state: parse_agent_state(row.state.as_str()),
        bootstrap_state: parse_bootstrap_state(row.bootstrap_state.as_str()),
        bootstrap_summary: row.bootstrap_summary,
        bootstrap_completed_at: parse_datetime(&row.bootstrap_completed_at),
        current_task_id: row.current_task_id,
        last_output_at: parse_datetime(&row.last_output_at),
        last_heartbeat_at: parse_datetime(&row.last_heartbeat_at),
        bridge_state: parse_bridge_state(row.bridge_state.as_str()),
        bridge_mode: load_opt_bridge_mode(&row.bridge_mode),
        bridge_session_id: row.bridge_session_id,
        bridge_connected_at: parse_datetime(&row.bridge_connected_at),
        bridge_last_seen_at: parse_datetime(&row.bridge_last_seen_at),
        bridge_last_delivery_id: load_number(row.bridge_last_delivery_id),
        bridge_last_ack_delivery_id: load_number(row.bridge_last_ack_delivery_id),
        bridge_pending_delivery_count: load_small(row.bridge_pending_delivery_count),
    }
}

/// What the database holds of a task.
#[derive(Debug)]
pub struct TaskRow {
    pub task_id: String,
    pub from_agent: String,
    pub to_agent: String,
    pub title: String,
    pub summary: String,
    pub effort: Option<String>,
    pub read_scope: String,
    pub write_scope: String,
    pub acceptance: String,
    pub auto_resolve_by: Option<String>,
    pub auto_resolve_summary: Option<String>,
    pub round_count: i64,
    pub latest_child_status: Option<String>,
    pub latest_child_summary: Option<String>,
    pub latest_child_blocking: Option<String>,
    pub latest_child_topic: Option<String>,
    pub latest_child_details: Option<String>,
    pub latest_decision_id: Option<String>,
    pub latest_decision_summary: Option<String>,
    pub latest_decision_status: Option<String>,
    pub latest_decision_issued_by: Option<String>,
    pub latest_decision_at: Option<String>,
    pub state: String,
    pub created_at: String,
    pub updated_at: String,
    pub closed_at: Option<String>,
}

#[verifier::ext_equal]
pub struct TaskRowModel {
    pub task_id: Seq<char>,
    pub from_agent: Seq<char>,
    pub to_agent: Seq<char>,
    pub title: Seq<char>,
    pub summary: Seq<char>,
    pub effort: Option<Seq<char>>,
    pub read_scope: Seq<char>,
    pub write_scope: Seq<char>,
    pub acceptance: Seq<char>,
    pub auto_resolve_by: Option<Seq<char>>,
    pub auto_resolve_summary: Option<Seq<char>>,
    pub round_count: i64,
    pub latest_child_status: Option<Seq<char>>,
    pub latest_child_summary: Option<Seq<char>>,
    pub latest_child_blocking: Option<Seq<char>>,
    pub latest_child_topic: Option<Seq<char>>,
    pub latest_child_details: Option<Seq<char>>,
    pub latest_decision_id: Option<Seq<char>>,
    pub latest_decision_summary: Option<Seq<char>>,
    pub latest_decision_status: Option<Seq<char>>,
    pub latest_decision_issued_by: Option<Seq<char>>,
    pub latest_decision_at: Option<Seq<char>>,
    pub state: Seq<char>,
    pub created_at: Seq<char>,
    pub updated_at: Seq<char>,
    pub closed_at: Option<Seq<char>>,
}

impl View for TaskRow {
    type V = TaskRowModel;

    open spec fn view(&self) -> TaskRowModel {
        TaskRowModel {
            task_id: self.task_id@,
            from_agent: self.from_agent@,
            to_agent: self.to_agent@,
            title: self.title@,
            summary: self.summary@,
            effort: opt_text(self.effort),
            read_scope: self.read_scope@,
            write_scope: self.write_scope@,
            acceptance: self.acceptance@,
            auto_resolve_by: opt_text(self.auto_resolve_by),
            auto_resolve_summary: opt_text(self.auto_resolve_summary),
            round_count: self.round_count,
            latest_child_status: opt_text(self.latest_child_status),
            latest_child_summary: opt_text(self.latest_child_summary),
            latest_child_blocking: opt_text(self.latest_child_blocking),
            latest_child_topic: opt_text(self.latest_child_topic),
            latest_child_details: opt_text(self.latest_child_details),
            latest_decision_id: opt_text(self.latest_decision_id),
            latest_decision_summary: opt_text(self.latest_decision_summary),
            latest_decision_status: opt_text(self.latest_decision_status),
            latest_decision_issued_by: opt_text(self.latest_decision_issued_by),
            latest_decision_at: opt_text(self.latest_decision_at),
            state: self.state@,
            created_at: self.created_at@,
            updated_at: self.updated_at@,
            closed_at: opt_text(self.closed_at),
        }
    }
}

pub open spec fn task_row(task: TaskModel) -> TaskRowModel {
    TaskRowModel {
        task_id: task.task_id,
        from_agent: task.from_agent,
        to_agent: task.to_agent,
        title: task.title,
        summary: task.summary,
        effort: task.effort,
        read_scope: json_text(json_texts(task.read_scope)),
        write_scope: json_text(json_texts(task.write_scope)),
        acceptance: json_text(json_texts(task.acceptance)),
        auto_resolve_by: task.auto_resolve_by,
        auto_resolve_summary: task.auto_resolve_summary,
        round_count: task.round_count as i64,
        latest_child_status: task.latest_child_status,
        latest_child_summary: task.latest_child_summary,
        latest_child_blocking: task.latest_child_blocking,
        latest_child_topic: task.latest_child_topic,
        latest_child_details: task.latest_child_details,
        latest_decision_id: task.latest_decision_id,
        latest_decision_summary: task.latest_decision_summary,
        latest_decision_status: task.latest_decision_status,
        latest_decision_issued_by: task.latest_decision_issued_by,
        latest_decision_at: stored_time(task.latest_decision_at),
        state: task.state.label(),
        created_at: rfc3339(task.created_at),
        updated_at: rfc3339(task.updated_at),
        closed_at: stored_time(task.closed_at),
    }
}

/// What is read back, or the text of an instant that cannot be read.
pub open spec fn task_in(row: TaskRowModel) -> Result<TaskModel, Seq<char>> {
    match required_time(row.created_at) {
        Err(s) => Err(s),
        Ok(created_at) => match required_time(row.updated_at) {
            Err(s) => Err(s),
            Ok(updated_at) => Ok(
                TaskModel {
                    task_id: row.task_id,
                    from_agent: row.from_agent,
                    to_agent: row.to_agent,
                    title: row.title,
                    summary: row.summary,
                    effort: row.effort,
                    read_scope: string_list_in(row.read_scope),
                    write_scope: string_list_in(row.write_scope),
                    acceptance: string_list_in(row.acceptance),
                    auto_resolve_by: row.auto_resolve_by,
                    auto_resolve_summary: row.auto_resolve_summary,
                    round_count: read_small(row.round_count),
                    latest_child_status: row.latest_child_status,
                    latest_child_summary: row.latest_child_summary,
                    latest_child_blocking: row.latest_child_blocking,
                    latest_child_topic: row.latest_child_topic,
                    latest_child_details: row.latest_child_details,
                    latest_decision_id: row.latest_decision_id,
                    latest_decision_summary: row.latest_decision_summary,
                    latest_decision_status: row.latest_decision_status,
                    latest_decision_issued_by: row.latest_decision_issued_by,
                    latest_decision_at: read_time(row.latest_decision_at),
                    state: stored_task_state(row.state),
                    created_at,
                    updated_at,
                    closed_at: read_time(row.closed_at),
                },
            ),
        },
    }
}

/// Whether the task is read back unchanged.
pub open spec fn storable_task(task: TaskModel) -> bool {
    &&& storable_time(task.latest_decision_at)
    &&& task.created_at.plain()
    &&& task.updated_at.plain()
    &&& storable_time(task.closed_at)
}

/// The row of the record. It is read back as the record that was stored.
pub fn to_task_row(task: &TaskSummary) -> (r: TaskRow)
    ensures
        r@ == task_row(task@),
        storable_task(task@) ==> task_in(r@) == Ok::<TaskModel, Seq<char>>(task@),
{
    let r = TaskRow {
        task_id: task.task_id.clone(),
        from_agent: task.from_agent.clone(),
        to_agent: task.to_agent.clone(),
        title: task.title.clone(),
        summary: task.summary.clone(),
        effort: copy_text(&task.effort),
        read_scope: serialize_string_list(&task.read_scope),
        write_scope: serialize_string_list(&task.write_scope),
        acceptance: serialize_string_list(&task.acceptance),
        auto_resolve_by: copy_text(&task.auto_resolve_by),
        auto_resolve_summary: copy_text(&task.auto_resolve_summary),
        round_count: task.round_count as i64,
        latest_child_status: copy_text(&task.latest_child_status),
        latest_child_summary: copy_text(&task.latest_child_summary),
        latest_child_blocking: copy_text(&task.latest_child_blocking),
        latest_child_topic: copy_text(&task.latest_child_topic),
        latest_child_details: copy_text(&task.latest_child_details),
        latest_decision_id: copy_text(&task.latest_decision_id),
        latest_decision_summary: copy_text(&task.latest_decision_summary),
        latest_decision_status: copy_text(&task.latest_decision_status),
        latest_decision_issued_by: copy_text(&task.latest_decision_issued_by),
        latest_decision_at: store_time(task.latest_decision_at),
        state: text(task.state.as_label()),
        created_at: to_rfc3339(task.created_at),
        updated_at: to_rfc3339(task.updated_at),
        closed_at: store_time(task.closed_at),
    };
    proof {
        task_state_is_read_back(task.state);
    }
    r
}

pub fn from_task_row(row: TaskRow) -> (r: Result<TaskSummary, Failure>)
    ensures
        seen(r) == task_in(row@),
{
    let created_at = match parse_required_datetime(row.created_at.as_str()) {
        Ok(t) => t,
        Err(e) => {
            return Err(e);
        },
    };
    let updated_at = match parse_required_datetime(row.updated_at.as_str()) {
        Ok(t) => t,
        Err(e) => {
            return Err(e);
        },
    };
    Ok(
    TaskSummary {
        task_id: row.task_id,
        from_agent: row.from_agent,
        to_agent: row.to_agent,
        title: row.title,
        summary: row.summary,
        effort: row.effort,
        read_scope: deserialize_string_list(row.read_scope.as_str()),
        write_scope: deserialize_string_list(row.write_scope.as_str()),
        acceptance: deserialize_string_list(row.acceptance.as_str()),
        auto_resolve_by: row.auto_resolve_by,
        auto_resolve_summary: row.auto_resolve_summary,
        round_count: load_small(row.round_count),
        latest_child_status: row.latest_child_status,
        latest_child_summary: row.latest_child_summary,
        latest_child_blocking: row.latest_child_blocking,
        latest_child_topic: row.latest_child_topic,
        latest_child_details: row.latest_child_details,
        latest_decision_id: row.latest_decision_id,
        latest_decision_summary: row.latest_decision_summary,
        latest_decision_status: row.latest_decision_status,
        latest_decision_issued_by: row.latest_decision_issued_by,
        latest_decision_at: parse_datetime(&row.latest_decision_at),
        state: parse_task_state(row.state.as_str()),
        created_at,
        updated_at,
        closed_at: parse_datetime(&row.closed_at),
    },
    )
}

/// What the database holds of a session.
#[derive(Debug)]
pub struct SessionRow {
    pub session_id: String,
    pub agent_name: String,
    pub session_mode: String,
    pub pid: Option<i64>,
    pub thread_id: Option<String>,
    pub status: String,
    pub started_at: String,
    pub ended_at: Option<String>,
    pub last_output_at: Option<String>,
}

#[verifier::ext_equal]
pub struct SessionRowModel {
    pub session_id: Seq<char>,
    pub agent_name: Seq<char>,
    pub session_mode: Seq<char>,
    pub pid: Option<i64>,
    pub thread_id: Option<Seq<char>>,
    pub status: Seq<char>,
    pub started_at: Seq<char>,
    pub ended_at: Option<Seq<char>>,
    pub last_output_at: Option<Seq<char>>,
}

impl View for SessionRow {
    type V = SessionRowModel;

    open spec fn view(&self) -> SessionRowModel {
        SessionRowModel {
            session_id: self.session_id@,
            agent_name: self.agent_name@,
            session_mode: self.session_mode@,
            pid: self.pid,
            thread_id: opt_text(self.thread_id),
            status: self.status@,
            started_at: self.started_at@,
            ended_at: opt_text(self.ended_at),
            last_output_at: opt_text(self.last_output_at),
        }
    }
}

pub open spec fn session_row(session: SessionModel) -> SessionRowModel {
    SessionRowModel {
        session_id: session.session_id,
        agent_name: session.agent_name,
        session_mode: session.session_mode.label(),
        pid: stored_pid(session.pid),
        thread_id: session.thread_id,
        status: session.status.label(),
        started_at: rfc3339(session.started_at),
        ended_at: stored_time(session.ended_at),
        last_output_at: stored_time(session.last_output_at),
    }
}

/// What is read back, or the text of an instant that cannot be read.
pub open spec fn session_in(row: SessionRowModel) -> Result<SessionModel, Seq<char>> {
    match required_time(row.started_at) {
        Err(s) => Err(s),
        Ok(started_at) => Ok(
            SessionModel {
                session_id: row.session_id,
                agent_name: row.agent_name,
                session_mode: stored_session_mode(row.session_mode),
                pid: read_pid(row.pid),
                thread_id: row.thread_id,
                status: stored_codex_session_status(row.status),
                started_at,
                ended_at: read_time(row.ended_at),
                last_output_at: read_time(row.last_output_at),
            },
        ),
    }
}

/// Whether the session is read back unchanged.
pub open spec fn storable_session(session: SessionModel) -> bool {
    &&& session.started_at.plain()
    &&& storable_time(session.ended_at)
    &&& storable_time(session.last_output_at)
}

/// The row of the record. It is read back as the record that was stored.
pub fn to_session_row(session: &SessionSummary) -> (r: SessionRow)
    ensures
        r@ == session_row(session@),
        storable_session(session@) ==> session_in(r@) == Ok::<SessionModel, Seq<char>>(session@),
{
    let r = SessionRow {
        session_id: session.session_id.clone(),
        agent_name: session.agent_name.clone(),
        session_mode: text(session.session_mode.as_label()),
        pid: store_pid(session.pid),
        thread_id: copy_text(&session.thread_id),
        status: text(session.status.as_label()),
        started_at: to_rfc3339(session.started_at),
        ended_at: store_time(session.ended_at),
        last_output_at: store_time(session.last_output_at),
    };
    proof {
        session_mode_is_read_back(session.session_mode);
        codex_session_status_is_read_back(session.status);
    }
    r
}

pub fn from_session_row(row: SessionRow) -> (r: Result<SessionSummary, Failure>)
    ensures
        seen(r) == session_in(row@),
{
    let started_at = match parse_required_datetime(row.started_at.as_str()) {
        Ok(t) => t,
        Err(e) => {
            return Err(e);
        },
    };
    Ok(
    SessionSummary {
        session_id: row.session_id,
        agent_name: row.agent_name,
        session_mode: parse_session_mode(row.session_mode.as_str()),
        pid: load_pid(row.pid),
        thread_id: row.thread_id,
        status: parse_codex_session_status(row.status.as_str()),
        started_at,
        ended_at: parse_datetime(&row.ended_at),
        last_output_at: parse_datetime(&row.last_output_at),
    },
    )
}

/// What the database holds of a decision.
#[derive(Debug)]
pub struct DecisionRow {
    pub decision_id: String,
    pub task_id: String,
    pub issued_by: String,
    pub target_agent: String,
    pub summary: String,
    pub status: String,
    pub created_at: String,
    pub acknowledged_at: Option<String>,
}

#[verifier::ext_equal]
pub struct DecisionRowModel {
    pub decision_id: Seq<char>,
    pub task_id: Seq<char>,
    pub issued_by: Seq<char>,
    pub target_agent: Seq<char>,
    pub summary: Seq<char>,
    pub status: Seq<char>,
    pub created_at: Seq<char>,
    pub acknowledged_at: Option<Seq<char>>,
}

impl View for DecisionRow {
    type V = DecisionRowModel;

    open spec fn view(&self) -> DecisionRowModel {
        DecisionRowModel {
            decision_id: self.decision_id@,
            task_id: self.task_id@,
            issued_by: self.issued_by@,
            target_agent: self.target_agent@,
            summary: self.summary@,
            status: self.status@,
            created_at: self.created_at@,
            acknowledged_at: opt_text(self.acknowledged_at),
        }
    }
}

pub open spec fn decision_row(decision: DecisionModel) -> DecisionRowModel {
    DecisionRowModel {
        decision_id: decision.decision_id,
        task_id: decision.task_id,
        issued_by: decision.issued_by,
        target_agent: decision.target_agent,
        summary: decision.summary,
        status: decision.status,
        created_at: rfc3339(decision.created_at),
        acknowledged_at: stored_time(decision.acknowledged_at),
    }
}

/// What is read back, or the text of an instant that cannot be read.
pub open spec fn decision_in(row: DecisionRowModel) -> Result<DecisionModel, Seq<char>> {
    match required_time(row.created_at) {
        Err(s) => Err(s),
        Ok(created_at) => Ok(
            DecisionModel {
                decision_id: row.decision_id,
                task_id: row.task_id,
                issued_by: row.issued_by,
                target_agent: row.target_agent,
                summary: row.summary,
                status: row.status,
                created_at,
                acknowledged_at: read_time(row.acknowledged_at),
            },
        ),
    }
}

/// Whether the decision is read back unchanged.
pub open spec fn storable_decision(decision: DecisionModel) -> bool {
    &&& decision.created_at.plain()
    &&& storable_time(decision.acknowledged_at)
}

/// The row of the record. It is read back as the record that was stored.
pub fn to_decision_row(decision: &DecisionSummary) -> (r: DecisionRow)
    ensures
        r@ == decision_row(decision@),
        storable_decision(decision@) ==> decision_in(r@) == Ok::<DecisionModel, Seq<char>>(decision@),
{
    let r = DecisionRow {
        decision_id: decision.decision_id.clone(),
        task_id: decision.task_id.clone(),
        issued_by: decision.issued_by.clone(),
        target_agent: decision.target_agent.clone(),
        summary: decision.summary.clone(),
        status: decision.status.clone(),
        created_at: to_rfc3339(decision.created_at),
        acknowledged_at: store_time(decision.acknowledged_at),
    };
    r
}

pub fn from_decision_row(row: DecisionRow) -> (r: Result<DecisionSummary, Failure>)
    ensures
        seen(r) == decision_in(row@),
{
    let created_at = match parse_required_datetime(row.created_at.as_str()) {
        Ok(t) => t,
        Err(e) => {
            return Err(e);
        },
    };
    Ok(
    DecisionSummary {
        decision_id: row.decision_id,
        task_id: row.task_id,
        issued_by: row.issued_by,
        target_agent: row.target_agent,
        summary: row.summary,
        status: row.status,
        created_at,
        acknowledged_at: parse_datetime(&row.acknowledged_at),
    },
    )
}

/// What the database holds of a line of output.
#[derive(Debug)]
pub struct StreamRow {
    pub session_id: Option<String>,
    pub agent: String,
    pub stream: String,
    pub content: String,
    pub at: String,
}

#[verifier::ext_equal]
pub struct StreamRowModel {
    pub session_id: Option<Seq<char>>,
    pub agent: Seq<char>,
    pub stream: Seq<char>,
    pub content: Seq<char>,
    pub at: Seq<char>,
}

impl View for StreamRow {
    type V = StreamRowModel;

    open spec fn view(&self) -> StreamRowModel {
        StreamRowModel {
            session_id: opt_text(self.session_id),
            agent: self.agent@,
            stream: self.stream@,
            content: self.content@,
            at: self.at@,
        }
    }
}

pub open spec fn stream_event_row(stream_event: StreamModel) -> StreamRowModel {
    StreamRowModel {
        session_id: stream_event.session_id,
        agent: stream_event.agent,
        stream: stream_event.stream,
        content: stream_event.content,
        at: rfc3339(stream_event.at),
    }
}

/// What is read back, or the text of an instant that cannot be read.
pub open spec fn stream_event_in(row: StreamRowModel) -> Result<StreamModel, Seq<char>> {
    match required_time(row.at) {
        Err(s) => Err(s),
        Ok(at) => Ok(
            StreamModel {
                session_id: row.session_id,
                agent: row.agent,
                stream: row.stream,
                content: row.content,
                at,
            },
        ),
    }
}

/// Whether the line is read back unchanged.
pub open spec fn storable_stream_event(stream_event: StreamModel) -> bool {
    &&& stream_event.at.plain()
}

/// The row of the record. It is read back as the record that was stored.
pub fn to_stream_event_row(stream_event: &StreamEventRecord) -> (r: StreamRow)
    ensures
        r@ == stream_event_row(stream_event@),
        storable_stream_event(stream_event@) ==> stream_event_in(r@) == Ok::<StreamModel, Seq<char>>(stream_event@),
{
    let r = StreamRow {
        session_id: copy_text(&stream_event.session_id),
        agent: stream_event.agent.clone(),
        stream: stream_event.stream.clone(),
        content: stream_event.content.clone(),
        at: to_rfc3339(stream_event.at),
    };
    r
}

pub fn from_stream_event_row(row: StreamRow) -> (r: Result<StreamEventRecord, Failure>)
    ensures
        seen(r) == stream_event_in(row@),
{
    let at = match parse_required_datetime(row.at.as_str()) {
        Ok(t) => t,
        Err(e) => {
            return Err(e);
        },
    };
    Ok(
    StreamEventRecord {
        session_id: row.session_id,
        agent: row.agent,
        stream: row.stream,
        content: row.content,
        at,
    },
    )
}

/// What the database holds of an entry of the ledger.
#[derive(Debug)]
pub struct RuntimeEventRow {
    pub id: i64,
    pub scope: String,
    pub scope_id: String,
    pub agent_name: Option<String>,
    pub task_id: Option<String>,
    pub session_id: Option<String>,
    pub actor_name: Option<String>,
    pub event_type: String,
    pub summary: String,
    pub reason: Option<String>,
    pub payload_json: Option<String>,
    pub created_at: String,
}

#[verifier::ext_equal]
pub struct RuntimeEventRowModel {
    pub id: i64,
    pub scope: Seq<char>,
    pub scope_id: Seq<char>,
    pub agent_name: Option<Seq<char>>,
    pub task_id: Option<Seq<char>>,
    pub session_id: Option<Seq<char>>,
    pub actor_name: Option<Seq<char>>,
    pub event_type: Seq<char>,
    pub summary: Seq<char>,
    pub reason: Option<Seq<char>>,
    pub payload_json: Option<Seq<char>>,
    pub created_at: Seq<char>,
}

impl View for RuntimeEventRow {
    type V = RuntimeEventRowModel;

    open spec fn view(&self) -> RuntimeEventRowModel {
        RuntimeEventRowModel {
            id: self.id,
            scope: self.scope@,
            scope_id: self.scope_id@,
            agent_name: opt_text(self.agent_name),
            task_id: opt_text(self.task_id),
            session_id: opt_text(self.session_id),
            actor_name: opt_text(self.actor_name),
            event_type: self.event_type@,
            summary: self.summary@,
            reason: opt_text(self.reason),
            payload_json: opt_text(self.payload_json),
            created_at: self.created_at@,
        }
    }
}

pub open spec fn runtime_event_row(runtime_event: RuntimeEventModel) -> RuntimeEventRowModel {
    RuntimeEventRowModel {
        id: runtime_event.id,
        scope: runtime_event.scope,
        scope_id: runtime_event.scope_id,
        agent_name: runtime_event.agent_name,
        task_id: runtime_event.task_id,
        session_id: runtime_event.session_id,
        actor_name: runtime_event.actor_name,
        event_type: runtime_event.event_type,
        summary: runtime_event.summary,
        reason: runtime_event.reason,
        payload_json: runtime_event.payload_json,
        created_at: rfc3339(runtime_event.created_at),
    }
}

/// What is read back, or the text of an instant that cannot be read.
pub open spec fn runtime_event_in(row: RuntimeEventRowModel) -> Result<RuntimeEventModel, Seq<char>> {
    match required_time(row.created_at) {
        Err(s) => Err(s),
        Ok(created_at) => Ok(
            RuntimeEventModel {
                id: row.id,
                scope: row.scope,
                scope_id: row.scope_id,
                agent_name: row.agent_name,
                task_id: row.task_id,
                session_id: row.session_id,
                actor_name: row.actor_name,
                event_type: row.event_type,
                summary: row.summary,
                reason: row.reason,
                payload_json: row.payload_json,
                created_at,
            },
        ),
    }
}

/// Whether the entry is read back unchanged.
pub open spec fn storable_runtime_event(runtime_event: RuntimeEventModel) -> bool {
    &&& runtime_event.created_at.plain()
}

/// The row of the record. It is read back as the record that was stored.
pub fn to_runtime_event_row(runtime_event: &RuntimeEventRecord) -> (r: RuntimeEventRow)
    ensures
        r@ == runtime_event_row(runtime_event@),
        storable_runtime_event(runtime_event@) ==> runtime_event_in(r@) == Ok::<RuntimeEventModel, Seq<char>>(runtime_event@),
{
    let r = RuntimeEventRow {
        id: runtime_event.id,
        scope: runtime_event.scope.clone(),
        scope_id: runtime_event.scope_id.clone(),
        agent_name: copy_text(&runtime_event.agent_name),
        task_id: copy_text(&runtime_event.task_id),
        session_id: copy_text(&runtime_event.session_id),
        actor_name: copy_text(&runtime_event.actor_name),
        event_type: runtime_event.event_type.clone(),
        summary: runtime_event.summary.clone(),
        reason: copy_text(&runtime_event.reason),
        payload_json: copy_text(&runtime_event.payload_json),
        created_at: to_rfc3339(runtime_event.created_at),
    };
    r
}

pub fn from_runtime_event_row(row: RuntimeEventRow) -> (r: Result<RuntimeEventRecord, Failure>)
    ensures
        seen(r) == runtime_event_in(row@),
{
    let created_at = match parse_required_datetime(row.created_at.as_str()) {
        Ok(t) => t,
        Err(e) => {
            return Err(e);
        },
    };
    Ok(
    RuntimeEventRecord {
        id: row.id,
        scope: row.scope,
        scope_id: row.scope_id,
        agent_name: row.agent_name,
        task_id: row.task_id,
        session_id: row.session_id,
        actor_name: row.actor_name,
        event_type: row.event_type,
        summary: row.summary,
        reason: row.reason,
        payload_json: row.payload_json,
        created_at,
    },
    )
}

/// Rows that were read newest first, oldest first.
pub fn oldest_first<T>(rows: Vec<T>) -> (r: Vec<T>)
    ensures
        r@ == rows@.reverse(),
{
    let mut rest = rows;
    let mut r: Vec<T> = Vec::new();
    while rest.len() > 0
        invariant
            rest.len() + r.len() == rows.len(),
            rest@ == rows@.take(rest.len() as int),
            r@ == rows@.skip(rest.len() as int).reverse(),
        decreases rest.len(),
    {
        let ghost n = rest.len() as int;
        match rest.pop() {
            Some(row) => {
                r.push(row);
                assert(r@ =~= rows@.skip(n - 1).reverse());
                assert(rest@ =~= rows@.take(n - 1));
            },
            None => {},
        }
    }
    assert(rows@.skip(0) =~= rows@);
    r
}

/// What an update of a decision that changed so many rows is answered.
pub open spec fn acknowledged_rows(changed: usize, decision_id: Seq<char>) -> Result<(), Seq<char>> {
    if changed == 0 {
        Err("decision not found: "@ + decision_id)
    } else {
        Ok(())
    }
}

pub fn check_acknowledged_rows(changed: usize, decision_id: &str) -> (r: Result<(), Failure>)
    ensures
        seen(r) == acknowledged_rows(changed, decision_id@),
{
    if changed == 0 {
        Err(Failure::new(text("decision not found: ").concat(decision_id)))
    } else {
        Ok(())
    }
}

} // verus!
