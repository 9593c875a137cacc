//! Rounds of the codex backend: how one is launched, what its output says, and
//! how it ended.

use vstd::prelude::*;

use crate::failure::{seen, Failure};
use crate::json::{parse_json, read_json, JsonModel, JsonValue};
use crate::models::{
    AgentModel, AgentRoundResult, AgentSummary, AppServerOwner, BridgeConnectionState, RoundModel,
    SessionMode,
};
use crate::text::{
    copy_text, decimal, opt_str, opt_text, same_text, text, text_or, texts, to_chars,
    to_decimal, trim, trimmed,
};
use crate::time::Timestamp;

verus! {

/// What a round is started with.
pub struct BackendStartRequest {
    pub agent: AgentSummary,
    pub prompt: String,
    pub output_schema: Option<String>,
    pub session_mode: SessionMode,
}

/// What an app server is started with.
pub struct AppServerStartRequest {
    pub agent: AgentSummary,
    pub launcher_path: String,
}

#[derive(Debug, Clone, Copy, PartialEq, Eq, Structural)]
pub enum BackendStream {
    Stdout,
    Stderr,
}

impl BackendStream {
    pub open spec fn label(self) -> Seq<char> {
        match self {
            BackendStream::Stdout => "stdout"@,
            BackendStream::Stderr => "stderr"@,
        }
    }

    pub fn as_label(self) -> (r: &'static str)
        ensures
            r@ == self.label(),
    {
        match self {
            BackendStream::Stdout => "stdout",
            BackendStream::Stderr => "stderr",
        }
    }
}

pub enum BackendEvent {
    Line { stream: BackendStream, line: String },
    ThreadStarted { thread_id: String },
}

pub struct BackendFinished {
    pub parsed: ParsedCodexRound,
    pub stderr_lines: Vec<String>,
    pub success: bool,
    pub status_label: String,
    pub stopped: bool,
}

/// What the output of a round has said so far.
pub struct ParsedCodexRound {
    pub thread_id: Option<String>,
    pub final_message: Option<String>,
    pub error_message: Option<String>,
}

#[verifier::ext_equal]
pub struct ParsedModel {
    pub thread_id: Option<Seq<char>>,
    pub final_message: Option<Seq<char>>,
    pub error_message: Option<Seq<char>>,
}

impl View for ParsedCodexRound {
    type V = ParsedModel;

    open spec fn view(&self) -> ParsedModel {
        ParsedModel {
            thread_id: opt_text(self.thread_id),
            final_message: opt_text(self.final_message),
            error_message: opt_text(self.error_message),
        }
    }
}

pub open spec fn is_safe_char(c: char) -> bool {
    'a' <= c <= 'z' || 'A' <= c <= 'Z' || '0' <= c <= '9' || c == '_' || c == '-' || c == '.'
}

/// The agent's name as a file name: unsafe characters become `_`, and a name
/// of which nothing but `_` is left becomes `agent`.
pub open spec fn safe_segment(name: Seq<char>) -> Seq<char> {
    let safe = name.map_values(|c: char| if is_safe_char(c) { c } else { '_' });
    if forall|i: int| 0 <= i < safe.len() ==> safe[i] == '_' {
        "agent"@
    } else {
        safe
    }
}

pub fn sanitize_agent_name_segment(name: &str) -> (r: String)
    ensures
        r@ == safe_segment(name@),
{
    let v = to_chars(name);
    let mut safe = String::new();
    let mut blank = true;
    let ghost whole = name@.map_values(|c: char| if is_safe_char(c) { c } else { '_' });
    let mut i: usize = 0;
    while i < v.len()
        invariant
            i <= v.len(),
            v@ == name@,
            whole == name@.map_values(|c: char| if is_safe_char(c) { c } else { '_' }),
            safe@ == whole.take(i as int),
            blank == (forall|j: int| 0 <= j < i ==> whole[j] == '_'),
        decreases v.len() - i,
    {
        let c: char = v[i];
        let ok = ('a' <= c && c <= 'z') || ('A' <= c && c <= 'Z') || ('0' <= c && c <= '9') || c
            == '_' || c == '-' || c == '.';
        let kept: char = if ok { c } else { '_' };
        assert(whole[i as int] == kept);
        safe.push(kept);
        if kept != '_' {
            blank = false;
        }
        i += 1;
        assert(whole.take(i as int) =~= whole.take(i - 1).push(kept));
    }
    assert(whole.take(i as int) =~= whole);
    if blank {
        text("agent")
    } else {
        safe
    }
}

/// The text two fields down.
pub open spec fn text_at2(v: JsonModel, a: Seq<char>, b: Seq<char>) -> Option<Seq<char>> {
    match v.get(a) {
        Some(x) => x.text_at(b),
        None => None,
    }
}

fn find_text2(v: &JsonValue, a: &str, b: &str) -> (r: Option<String>)
    ensures
        opt_text(r) == text_at2(v@, a@, b@),
{
    match v.get(a) {
        Some(x) => x.text_at(b),
        None => None,
    }
}

/// The text of one part of an item: its `text`, else its `content`.
pub open spec fn part_text(part: JsonModel) -> Option<Seq<char>> {
    match part.text_at("text"@) {
        Some(s) => Some(s),
        None => part.text_at("content"@),
    }
}

/// The text of the first part that has one.
pub open spec fn first_part_text(parts: Seq<JsonModel>) -> Option<Seq<char>>
    decreases parts.len(),
{
    if parts.len() == 0 {
        None
    } else {
        match part_text(parts[0]) {
            Some(s) => Some(s),
            None => first_part_text(parts.skip(1)),
        }
    }
}

/// The text of an item: its `text`, else that of its first `content` part that
/// has one, else its `output_text`.
pub open spec fn item_text(item: JsonModel) -> Option<Seq<char>> {
    match item.text_at("text"@) {
        Some(s) => Some(s),
        None => match (match item.get("content"@) {
            Some(JsonModel::Array(parts)) => first_part_text(parts),
            _ => None,
        }) {
            Some(s) => Some(s),
            None => item.text_at("output_text"@),
        },
    }
}

fn find_part_text(parts: &Vec<JsonValue>) -> (r: Option<String>)
    ensures
        opt_text(r) == first_part_text(JsonValue::Array(*parts)@->Array_0),
{
    let ghost all = JsonValue::Array(*parts)@->Array_0;
    let mut i: usize = 0;
    assert(all.skip(0) =~= all);
    while i < parts.len()
        invariant
            i <= parts.len(),
            all == JsonValue::Array(*parts)@->Array_0,
            all.len() == parts.len(),
            first_part_text(all.skip(i as int)) == first_part_text(all),
        decreases parts.len() - i,
    {
        let part = &parts[i];
        assert(all.skip(i as int)[0] == part@);
        let own = part.text_at("text");
        if own.is_some() {
            return own;
        }
        let nested = part.text_at("content");
        if nested.is_some() {
            return nested;
        }
        assert(all.skip(i as int).skip(1) =~= all.skip(i + 1));
        i += 1;
    }
    None
}

pub fn extract_item_text(item: &JsonValue) -> (r: Option<String>)
    ensures
        opt_text(r) == item_text(item@),
{
    let own = item.text_at("text");
    if own.is_some() {
        return own;
    }
    match item.get("content") {
        Some(content) => match content {
            JsonValue::Array(parts) => {
                let nested = find_part_text(parts);
                if nested.is_some() {
                    return nested;
                }
            },
            _ => {},
        },
        None => {},
    }
    item.text_at("output_text")
}

/// The message of an error report, in any of the three places it may stand.
pub open spec fn error_text(v: JsonModel) -> Option<Seq<char>> {
    match v.text_at("message"@) {
        Some(s) => Some(s),
        None => match text_at2(v, "error"@, "message"@) {
            Some(s) => Some(s),
            None => text_at2(v, "details"@, "message"@),
        },
    }
}

pub fn extract_error_message(v: &JsonValue) -> (r: Option<String>)
    ensures
        opt_text(r) == error_text(v@),
{
    let own = v.text_at("message");
    if own.is_some() {
        return own;
    }
    let nested = find_text2(v, "error", "message");
    if nested.is_some() {
        return nested;
    }
    find_text2(v, "details", "message")
}

/// The message of the `error` field of a response.
pub fn extract_rpc_error_message(v: &JsonValue) -> (r: Option<String>)
    ensures
        opt_text(r) == text_at2(v@, "error"@, "message"@),
{
    find_text2(v, "error", "message")
}

/// The message of the `error` field of a turn.
pub fn extract_turn_error_message(turn: &JsonValue) -> (r: Option<String>)
    ensures
        opt_text(r) == text_at2(turn@, "error"@, "message"@),
{
    find_text2(turn, "error", "message")
}

/// A turn that has ended.
pub struct TurnCompleted {
    pub turn_id: String,
    pub status: String,
    pub error_message: Option<String>,
}

#[verifier::ext_equal]
pub struct TurnModel {
    pub turn_id: Seq<char>,
    pub status: Seq<char>,
    pub error_message: Option<Seq<char>>,
}

impl View for TurnCompleted {
    type V = TurnModel;

    open spec fn view(&self) -> TurnModel {
        TurnModel {
            turn_id: self.turn_id@,
            status: self.status@,
            error_message: opt_text(self.error_message),
        }
    }
}

/// The turn that a `turn/completed` message speaks of.
pub open spec fn completed_turn(v: JsonModel) -> Option<TurnModel> {
    if v.text_at("method"@) != Some("turn/completed"@) {
        None
    } else {
        match v.get("params"@) {
            Some(params) => match params.get("turn"@) {
                Some(turn) => match turn.text_at("id"@) {
                    Some(turn_id) => Some(
                        TurnModel {
                            turn_id,
                            status: text_or(turn.text_at("status"@), "unknown"@),
                            error_message: text_at2(turn, "error"@, "message"@),
                        },
                    ),
                    None => None,
                },
                None => None,
            },
            None => None,
        }
    }
}

pub fn extract_remote_turn_completed(v: &JsonValue) -> (r: Option<TurnCompleted>)
    ensures
        crate::table::view_opt(r) == completed_turn(v@),
{
    match v.text_at("method") {
        Some(method) => if !same_text(method.as_str(), "turn/completed") {
            return None;
        },
        None => {
            return None;
        },
    }
    match v.get("params") {
        Some(params) => match params.get("turn") {
            Some(turn) => match turn.text_at("id") {
                Some(turn_id) => {
                    let status = match turn.text_at("status") {
                        Some(s) => s,
                        None => text("unknown"),
                    };
                    Some(
                        TurnCompleted {
                            turn_id,
                            status,
                            error_message: extract_turn_error_message(turn),
                        },
                    )
                },
                None => None,
            },
            None => None,
        },
        None => None,
    }
}

impl ParsedModel {
    pub open spec fn attached(self, thread_id: Option<Seq<char>>) -> (ParsedModel, Option<Seq<char>>) {
        match thread_id {
            Some(id) => (ParsedModel { thread_id: Some(id), ..self }, Some(id)),
            None => (self, None),
        }
    }

    pub open spec fn said(self, message: Option<Seq<char>>) -> (ParsedModel, Option<Seq<char>>) {
        match message {
            Some(s) => (ParsedModel { final_message: Some(s), ..self }, None),
            None => (self, None),
        }
    }

    pub open spec fn failed(self, message: Option<Seq<char>>) -> (ParsedModel, Option<Seq<char>>) {
        match message {
            Some(s) => (ParsedModel { error_message: Some(s), ..self }, None),
            None => (self, None),
        }
    }

    /// What is known after a message, and the thread that the message starts.
    pub open spec fn ingest(self, v: JsonModel) -> (ParsedModel, Option<Seq<char>>) {
        match v.text_at("method"@) {
            Some(method) => {
                let params = v.get("params"@);
                if method == "thread/started"@ {
                    self.attached(
                        match params {
                            Some(p) => text_at2(p, "thread"@, "id"@),
                            None => None,
                        },
                    )
                } else if method == "item/completed"@ {
                    self.said(
                        match params {
                            Some(p) => match p.get("item"@) {
                                Some(item) => item_text(item),
                                None => None,
                            },
                            None => None,
                        },
                    )
                } else if method == "turn/completed"@ {
                    self.failed(
                        match params {
                            Some(p) => match p.get("turn"@) {
                                Some(turn) => text_at2(turn, "error"@, "message"@),
                                None => None,
                            },
                            None => None,
                        },
                    )
                } else {
                    (self, None)
                }
            },
            None => match v.text_at("type"@) {
                Some(kind) => if kind == "thread.started"@ {
                    self.attached(v.text_at("thread_id"@))
                } else if kind == "error"@ || kind == "turn.failed"@ {
                    self.failed(error_text(v))
                } else if kind == "item.completed"@ {
                    self.said(
                        match v.get("item"@) {
                            Some(item) => item_text(item),
                            None => None,
                        },
                    )
                } else {
                    (self, None)
                },
                None => (self, None),
            },
        }
    }

    /// The same for a line of output: a line that is no JSON says nothing.
    pub open spec fn ingest_line(self, line: Seq<char>) -> (ParsedModel, Option<Seq<char>>) {
        match read_json(line) {
            Ok(v) => self.ingest(v),
            Err(_) => (self, None),
        }
    }
}

impl ParsedCodexRound {
    pub fn new(existing_thread_id: Option<String>) -> (r: Self)
        ensures
            r@ == (ParsedModel {
                thread_id: opt_text(existing_thread_id),
                final_message: None,
                error_message: None,
            }),
    {
        ParsedCodexRound { thread_id: existing_thread_id, final_message: None, error_message: None }
    }

    pub fn ingest_stdout_line(&mut self, line: &str) -> (r: Option<String>)
        ensures
            (final(self)@, opt_text(r)) == old(self)@.ingest_line(line@),
    {
        match parse_json(line) {
            Ok(value) => self.ingest_json_value(&value),
            Err(_) => None,
        }
    }

    fn attach(&mut self, thread_id: Option<String>) -> (r: Option<String>)
        ensures
            (final(self)@, opt_text(r)) == old(self)@.attached(opt_text(thread_id)),
    {
        if thread_id.is_some() {
            self.thread_id = copy_text(&thread_id);
        }
        thread_id
    }

    fn say(&mut self, message: Option<String>)
        ensures
            (final(self)@, None::<Seq<char>>) == old(self)@.said(opt_text(message)),
    {
        if message.is_some() {
            self.final_message = message;
        }
    }

    fn fail(&mut self, message: Option<String>)
        ensures
            (final(self)@, None::<Seq<char>>) == old(self)@.failed(opt_text(message)),
    {
        if message.is_some() {
            self.error_message = message;
        }
    }

    pub fn ingest_json_value(&mut self, value: &JsonValue) -> (r: Option<String>)
        ensures
            (final(self)@, opt_text(r)) == old(self)@.ingest(value@),
    {
        match value.text_at("method") {
            Some(method) => {
                let params = value.get("params");
                if same_text(method.as_str(), "thread/started") {
                    return self.attach(
                        match params {
                            Some(p) => find_text2(p, "thread", "id"),
                            None => None,
                        },
                    );
                }
                if same_text(method.as_str(), "item/completed") {
                    self.say(
                        match params {
                            Some(p) => match p.get("item") {
                                Some(item) => extract_item_text(item),
                                None => None,
                            },
                            None => None,
                        },
                    );
                } else if same_text(method.as_str(), "turn/completed") {
                    self.fail(
                        match params {
                            Some(p) => match p.get("turn") {
                                Some(turn) => extract_turn_error_message(turn),
                                None => None,
                            },
                            None => None,
                        },
                    );
                }
                None
            },
            None => match value.text_at("type") {
                Some(kind) => {
                    if same_text(kind.as_str(), "thread.started") {
                        return self.attach(value.text_at("thread_id"));
                    }
                    if same_text(kind.as_str(), "error") || same_text(
                        kind.as_str(),
                        "turn.failed",
                    ) {
                        self.fail(extract_error_message(value));
                    } else if same_text(kind.as_str(), "item.completed") {
                        self.say(
                            match value.get("item") {
                                Some(item) => extract_item_text(item),
                                None => None,
                            },
                        );
                    }
                    None
                },
                None => None,
            },
        }
    }

    /// The result of a round that succeeded: it needs a thread.
    pub fn into_round_result(self, agent_name: &str, completed_at: Timestamp) -> (r: Result<
        AgentRoundResult,
        Failure,
    >)
        ensures
            seen(r) == round_result(self@, agent_name@, completed_at),
    {
        match self.thread_id {
            Some(thread_id) => Ok(
                AgentRoundResult {
                    agent: text(agent_name),
                    thread_id,
                    final_message: match self.final_message {
                        Some(s) => s,
                        None => text(""),
                    },
                    completed_at,
                },
            ),
            None => Err(Failure::new(text("missing thread_id from codex output"))),
        }
    }
}

pub open spec fn round_result(
    parsed: ParsedModel,
    agent_name: Seq<char>,
    completed_at: Timestamp,
) -> Result<RoundModel, Seq<char>> {
    match parsed.thread_id {
        Some(thread_id) => Ok(
            RoundModel {
                agent: agent_name,
                thread_id,
                final_message: text_or(parsed.final_message, ""@),
                completed_at,
            },
        ),
        None => Err("missing thread_id from codex output"@),
    }
}

/// Whether the agent's rounds go to an app server that is already running.
pub open spec fn uses_remote(agent: AgentModel) -> bool {
    &&& agent.app_server_url is Some
    &&& agent.thread_id is Some
    &&& agent.bridge_state == BridgeConnectionState::Connected || agent.app_server_owner == Some(
        AppServerOwner::Daemon,
    )
}

pub fn should_use_remote_round_backend(agent: &AgentSummary) -> (r: bool)
    ensures
        r == uses_remote(agent@),
{
    agent.app_server_url.is_some() && agent.thread_id.is_some() && (agent.bridge_state
        == BridgeConnectionState::Connected || match agent.app_server_owner {
        Some(owner) => owner == AppServerOwner::Daemon,
        None => false,
    })
}

/// How a round is to be launched.
#[derive(Debug, Clone, Copy, PartialEq, Eq, Structural)]
pub enum BackendLaunch {
    Remote,
    Process,
}

pub open spec fn launch_of(mode: SessionMode, agent: AgentModel) -> Result<
    BackendLaunch,
    Seq<char>,
> {
    match mode {
        SessionMode::Round => Ok(
            if uses_remote(agent) {
                BackendLaunch::Remote
            } else {
                BackendLaunch::Process
            },
        ),
        SessionMode::Pty => Err("pty backend not implemented yet"@),
        SessionMode::AppServer => Err("app-server backend must be started explicitly"@),
    }
}

impl View for BackendLaunch {
    type V = BackendLaunch;

    open spec fn view(&self) -> BackendLaunch {
        *self
    }
}

/// Decides how the round is launched; the caller then launches it.
pub fn start_backend(request: &BackendStartRequest) -> (r: Result<BackendLaunch, Failure>)
    ensures
        seen(r) == launch_of(request.session_mode, request.agent@),
{
    match request.session_mode {
        SessionMode::Round => if should_use_remote_round_backend(&request.agent) {
            Ok(BackendLaunch::Remote)
        } else {
            Ok(BackendLaunch::Process)
        },
        SessionMode::Pty => Err(Failure::new(text("pty backend not implemented yet"))),
        SessionMode::AppServer => Err(
            Failure::new(text("app-server backend must be started explicitly")),
        ),
    }
}

/// The arguments of the codex command for one round. Only a round without a
/// schema resumes the agent's thread.
pub open spec fn codex_args(agent: AgentModel, schema: Option<Seq<char>>) -> Seq<Seq<char>> {
    let common = seq!["-a"@, "never"@, "-s"@, "workspace-write"@];
    let round = match (agent.thread_id, schema) {
        (Some(thread_id), None) => seq![
            "exec"@,
            "resume"@,
            "--json"@,
            "--skip-git-repo-check"@,
            thread_id,
            "-"@,
        ],
        _ => seq!["exec"@, "--json"@, "--skip-git-repo-check"@, "--cd"@, agent.cwd, "-"@],
    };
    let tail = match schema {
        Some(path) => seq!["--output-schema"@, path],
        None => Seq::empty(),
    };
    common + round + tail
}

pub fn build_codex_round_command(agent: &AgentSummary, output_schema: Option<&str>) -> (r: Vec<
    String,
>)
    ensures
        texts(r@) == codex_args(agent@, opt_str(output_schema)),
{
    let mut args: Vec<String> = Vec::new();
    args.push(text("-a"));
    args.push(text("never"));
    args.push(text("-s"));
    args.push(text("workspace-write"));
    match (&agent.thread_id, output_schema) {
        (Some(thread_id), None) => {
            args.push(text("exec"));
            args.push(text("resume"));
            args.push(text("--json"));
            args.push(text("--skip-git-repo-check"));
            args.push(thread_id.clone());
            args.push(text("-"));
        },
        _ => {
            args.push(text("exec"));
            args.push(text("--json"));
            args.push(text("--skip-git-repo-check"));
            args.push(text("--cd"));
            args.push(agent.cwd.clone());
            args.push(text("-"));
        },
    }
    match output_schema {
        Some(path) => {
            args.push(text("--output-schema"));
            args.push(text(path));
        },
        None => {},
    }
    assert(texts(args@) =~= codex_args(agent@, opt_str(output_schema)));
    args
}

/// The last line that is not blank.
pub open spec fn last_line(lines: Seq<Seq<char>>) -> Option<Seq<char>>
    decreases lines.len(),
{
    if lines.len() == 0 {
        None
    } else if trimmed(lines.last()).len() > 0 {
        Some(lines.last())
    } else {
        last_line(lines.drop_last())
    }
}

pub fn last_nonblank_line(lines: &Vec<String>) -> (r: Option<String>)
    ensures
        opt_text(r) == last_line(texts(lines@)),
{
    let mut n: usize = lines.len();
    assert(texts(lines@).take(n as int) =~= texts(lines@));
    while n > 0
        invariant
            n <= lines.len(),
            last_line(texts(lines@).take(n as int)) == last_line(texts(lines@)),
        decreases n,
    {
        let cut = trim(lines[n - 1].as_str());
        proof {
            let head = texts(lines@).take(n as int);
            assert(head.last() == lines@[n - 1]@);
            assert(head.drop_last() =~= texts(lines@).take(n - 1));
        }
        if !cut.as_str().is_empty() {
            return Some(lines[n - 1].clone());
        }
        n -= 1;
    }
    None
}

/// How a round that has finished is answered.
pub open spec fn round_outcome(
    parsed: ParsedModel,
    stderr_lines: Seq<Seq<char>>,
    success: bool,
    status_label: Seq<char>,
    stopped: bool,
    agent_name: Seq<char>,
    now: Timestamp,
) -> Result<RoundModel, Seq<char>> {
    if stopped {
        Err("codex session stop requested for agent "@ + agent_name)
    } else if !success {
        let detail = match parsed.error_message {
            Some(s) => s,
            None => match last_line(stderr_lines) {
                Some(s) => s,
                None => "backend ended with status "@ + status_label,
            },
        };
        Err("codex round failed for agent "@ + agent_name + ": "@ + detail)
    } else {
        round_result(parsed, agent_name, now)
    }
}

pub fn conclude_round(finished: BackendFinished, agent_name: &str, now: Timestamp) -> (r: Result<
    AgentRoundResult,
    Failure,
>)
    ensures
        seen(r) == round_outcome(
            finished.parsed@,
            texts(finished.stderr_lines@),
            finished.success,
            finished.status_label@,
            finished.stopped,
            agent_name@,
            now,
        ),
{
    if finished.stopped {
        return Err(
            Failure::new(text("codex session stop requested for agent ").concat(agent_name)),
        );
    }
    if !finished.success {
        let detail = match copy_text(&finished.parsed.error_message) {
            Some(s) => s,
            None => match last_nonblank_line(&finished.stderr_lines) {
                Some(s) => s,
                None => text("backend ended with status ").concat(
                    finished.status_label.as_str(),
                ),
            },
        };
        return Err(
            Failure::new(
                text("codex round failed for agent ").concat(agent_name).concat(": ").concat(
                    detail.as_str(),
                ),
            ),
        );
    }
    finished.parsed.into_round_result(agent_name, now)
}

pub const SERVBAY_CODEX_SHIM: &'static str = "F:\\work\\useful\\ServBay\\packages\\node\\current\\codex";

pub const SERVBAY_NODE_EXE: &'static str = "F:\\work\\useful\\ServBay\\packages\\node\\current\\node.exe";

pub const SERVBAY_CODEX_JS: &'static str = "F:\\work\\useful\\ServBay\\packages\\node\\current\\node_modules\\@openai\\codex\\bin\\codex.js";

/// The program to run for a round, with its first arguments. The packaged codex is
/// run through node, where all three of its files are installed.
pub open spec fn codex_program(packaged: bool) -> Seq<Seq<char>> {
    if packaged {
        Seq::empty().push(SERVBAY_NODE_EXE@).push(SERVBAY_CODEX_JS@)
    } else {
        Seq::empty().push("codex"@)
    }
}

pub fn preferred_codex_command(packaged: bool) -> (r: Vec<String>)
    ensures
        texts(r@) == codex_program(packaged),
{
    let mut v: Vec<String> = Vec::new();
    if packaged {
        v.push(text(SERVBAY_NODE_EXE));
        v.push(text(SERVBAY_CODEX_JS));
    } else {
        v.push(text("codex"));
    }
    assert(texts(v@) =~= codex_program(packaged));
    v
}

/// The home of an agent's codex, as the parts of its path: below the root that is
/// named, else below the user's profile, else below the directory of temporary files.
pub open spec fn codex_home(
    agent_name: Seq<char>,
    root: Option<Seq<char>>,
    profile: Option<Seq<char>>,
    temp: Seq<char>,
) -> Seq<Seq<char>> {
    let safe = safe_segment(agent_name);
    match (root, profile) {
        (Some(root), _) => Seq::empty().push(root).push(safe),
        (None, Some(profile)) => Seq::empty().push(profile).push("codextemp"@).push(
            ".codex"@,
        ).push("agents"@).push(safe),
        (None, None) => Seq::empty().push(temp).push("agenttool-codex-home"@).push(safe),
    }
}

pub fn resolve_agent_codex_home(
    agent_name: &str,
    root: Option<String>,
    profile: Option<String>,
    temp: &str,
) -> (r: Vec<String>)
    ensures
        texts(r@) == codex_home(agent_name@, opt_text(root), opt_text(profile), temp@),
{
    let mut v: Vec<String> = Vec::new();
    match root {
        Some(root) => v.push(root),
        None => match profile {
            Some(profile) => {
                v.push(profile);
                v.push(text("codextemp"));
                v.push(text(".codex"));
                v.push(text("agents"));
            },
            None => {
                v.push(text(temp));
                v.push(text("agenttool-codex-home"));
            },
        },
    }
    v.push(sanitize_agent_name_segment(agent_name));
    assert(texts(v@) =~= codex_home(agent_name@, opt_text(root), opt_text(profile), temp@));
    v
}

/// The homes of agents are apart from each other's files: the last part of the
/// path has only letters, digits, `_`, `-` and `.`.
pub proof fn codex_home_is_below(
    agent_name: Seq<char>,
    root: Option<Seq<char>>,
    profile: Option<Seq<char>>,
    temp: Seq<char>,
)
    ensures
        codex_home(agent_name, root, profile, temp).last() == safe_segment(agent_name),
        forall|i: int|
            0 <= i < safe_segment(agent_name).len() ==> is_safe_char(
                #[trigger] safe_segment(agent_name)[i],
            ),
        safe_segment(agent_name).len() > 0,
{
    reveal_strlit("agent");
}

/// How an app server is launched: its program, its arguments, where it runs, and
/// where it can then be reached.
pub struct AppServerLaunch {
    pub program: String,
    pub args: Vec<String>,
    pub cwd: String,
    pub listen_url: String,
}

pub open spec fn listen_url(port: u16) -> Seq<char> {
    "ws://127.0.0.1:"@ + decimal(port as nat)
}

/// Plans the launch of an app server on a port of this machine.
pub fn start_app_server_backend(request: &AppServerStartRequest, port: u16) -> (r: AppServerLaunch)
    ensures
        r.program@ == request.launcher_path@,
        texts(r.args@) == Seq::empty().push("app-server"@).push("--listen"@).push(
            listen_url(port),
        ),
        r.cwd@ == request.agent@.cwd,
        r.listen_url@ == listen_url(port),
{
    let url = text("ws://127.0.0.1:").concat(to_decimal(port as u64).as_str());
    let mut args: Vec<String> = Vec::new();
    args.push(text("app-server"));
    args.push(text("--listen"));
    args.push(url.clone());
    assert(texts(args@) =~= Seq::empty().push("app-server"@).push("--listen"@).push(
        listen_url(port),
    ));
    AppServerLaunch {
        program: request.launcher_path.clone(),
        args,
        cwd: request.agent.cwd.clone(),
        listen_url: url,
    }
}

/// How a failed attempt to reach an app server is answered: the next one is made,
/// unless it is too late.
pub open spec fn not_ready(url: Seq<char>, error: Option<Seq<char>>, late: bool) -> Result<
    (),
    Seq<char>,
> {
    if !late {
        Ok(())
    } else {
        Err(
            match error {
                Some(e) => "managed app-server at "@ + url + " did not become ready: "@ + e,
                None => "managed app-server at "@ + url + " did not become ready before timeout"@,
            },
        )
    }
}

pub fn wait_for_app_server_ready(url: &str, error: Option<String>, late: bool) -> (r: Result<
    (),
    Failure,
>)
    ensures
        seen(r) == not_ready(url@, opt_text(error), late),
{
    if !late {
        return Ok(());
    }
    Err(
        Failure::new(
            match error {
                Some(e) => text("managed app-server at ").concat(url).concat(
                    " did not become ready: ",
                ).concat(e.as_str()),
                None => text("managed app-server at ").concat(url).concat(
                    " did not become ready before timeout",
                ),
            },
        ),
    )
}

} // verus!
