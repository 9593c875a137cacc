//! Rounds on an app server that is already running: the requests that go out,
//! how their answers are told from other messages, and how a turn ends.

use vstd::prelude::*;

use crate::backend::{
    completed_turn, extract_remote_turn_completed, extract_rpc_error_message, round_result,
    text_at2, BackendEvent, BackendFinished, BackendStream, ParsedCodexRound, ParsedModel,
};
use crate::failure::{seen, Failure};
use crate::json::{
    json_opt, json_text, json_texts, no_fields, object, object_text, parse_json, read_json, render_json,
    JsonModel, JsonObject, JsonValue,
};
use crate::models::{AgentModel, AgentRoundResult, AgentSummary, RoundModel};
use crate::table::{view_opt, views};
use crate::text::{
    copy_text, copy_texts, decimal, opt_text, same_text, text, text_or, texts, to_decimal,
};
use crate::time::Timestamp;

verus! {

/// What a websocket hands over.
pub enum RemoteFrame {
    Text { text: String },
    Ping,
    Close { reason: Option<String> },
    Other,
    /// The stream has ended.
    Ended,
    /// The stream could not be read.
    Broken,
}

/// What is to be done about a frame.
pub enum FrameStep {
    Message { message: JsonValue },
    Pong,
    Skip,
}

pub enum FrameModel {
    Message { message: JsonModel },
    Pong,
    Skip,
}

impl View for FrameStep {
    type V = FrameModel;

    open spec fn view(&self) -> FrameModel {
        match *self {
            FrameStep::Message { message } => FrameModel::Message { message: message@ },
            FrameStep::Pong => FrameModel::Pong,
            FrameStep::Skip => FrameModel::Skip,
        }
    }
}

/// A text is a message, a ping is answered, a close or a fault ends the
/// connection, and nothing else matters.
pub open spec fn frame_step(frame: RemoteFrame) -> Result<FrameModel, Seq<char>> {
    match frame {
        RemoteFrame::Text { text } => match read_json(text@) {
            Ok(message) => Ok(FrameModel::Message { message }),
            Err(_) => Err("remote app-server returned invalid json: "@ + text@),
        },
        RemoteFrame::Ping => Ok(FrameModel::Pong),
        RemoteFrame::Close { reason } => Err(
            match reason {
                Some(s) => if s@.len() > 0 {
                    s@
                } else {
                    "remote app-server closed the websocket"@
                },
                None => "remote app-server closed the websocket"@,
            },
        ),
        RemoteFrame::Other => Ok(FrameModel::Skip),
        RemoteFrame::Ended => Err("remote app-server websocket closed"@),
        RemoteFrame::Broken => Err("remote app-server websocket read failed"@),
    }
}

pub fn remote_read_message(frame: RemoteFrame) -> (r: Result<FrameStep, Failure>)
    ensures
        seen(r) == frame_step(frame),
{
    match frame {
        RemoteFrame::Text { text: line } => match parse_json(line.as_str()) {
            Ok(message) => Ok(FrameStep::Message { message }),
            Err(_) => Err(
                Failure::new(
                    text("remote app-server returned invalid json: ").concat(line.as_str()),
                ),
            ),
        },
        RemoteFrame::Ping => Ok(FrameStep::Pong),
        RemoteFrame::Close { reason } => {
            match reason {
                Some(s) => if !s.as_str().is_empty() {
                    return Err(Failure::new(s));
                },
                None => {},
            }
            Err(Failure::new(text("remote app-server closed the websocket")))
        },
        RemoteFrame::Other => Ok(FrameStep::Skip),
        RemoteFrame::Ended => Err(Failure::new(text("remote app-server websocket closed"))),
        RemoteFrame::Broken => Err(Failure::new(text("remote app-server websocket read failed"))),
    }
}

/// The schema that a file holds.
pub open spec fn schema_in(path: Seq<char>, content: Seq<char>) -> Result<JsonModel, Seq<char>> {
    match read_json(content) {
        Ok(schema) => Ok(schema),
        Err(_) => Err("failed to parse output schema json "@ + path),
    }
}

pub fn load_output_schema_value(path: &str, content: &str) -> (r: Result<JsonValue, Failure>)
    ensures
        seen(r) == schema_in(path@, content@),
{
    match parse_json(content) {
        Ok(schema) => Ok(schema),
        Err(_) => Err(Failure::new(text("failed to parse output schema json ").concat(path))),
    }
}

/// The notifications that are not wanted.
pub open spec fn optouts() -> Seq<Seq<char>> {
    seq![
        "thread/started"@,
        "thread/status/changed"@,
        "thread/tokenUsage/updated"@,
        "turn/started"@,
        "turn/diff/updated"@,
        "turn/plan/updated"@,
        "item/started"@,
        "item/agentMessage/delta"@,
        "item/plan/delta"@,
        "item/reasoning/summaryTextDelta"@,
        "item/reasoning/summaryPartAdded"@,
        "item/reasoning/textDelta"@,
        "command/exec/outputDelta"@,
        "item/commandExecution/outputDelta"@,
        "item/commandExecution/terminalInteraction"@,
        "item/fileChange/outputDelta"@,
        "item/mcpToolCall/progress"@,
        "account/rateLimits/updated"@,
    ]
}

fn optout_list() -> (r: Vec<String>)
    ensures
        texts(r@) == optouts(),
{
    let mut v: Vec<String> = Vec::new();
    v.push(text("thread/started"));
    v.push(text("thread/status/changed"));
    v.push(text("thread/tokenUsage/updated"));
    v.push(text("turn/started"));
    v.push(text("turn/diff/updated"));
    v.push(text("turn/plan/updated"));
    v.push(text("item/started"));
    v.push(text("item/agentMessage/delta"));
    v.push(text("item/plan/delta"));
    v.push(text("item/reasoning/summaryTextDelta"));
    v.push(text("item/reasoning/summaryPartAdded"));
    v.push(text("item/reasoning/textDelta"));
    v.push(text("command/exec/outputDelta"));
    v.push(text("item/commandExecution/outputDelta"));
    v.push(text("item/commandExecution/terminalInteraction"));
    v.push(text("item/fileChange/outputDelta"));
    v.push(text("item/mcpToolCall/progress"));
    v.push(text("account/rateLimits/updated"));
    assert(texts(v@) =~= optouts());
    v
}

/// What `initialize` says of this side.
pub open spec fn hello(name: Seq<char>, title: Seq<char>, version: Seq<char>) -> JsonModel {
    let client = no_fields().push(("name"@, JsonModel::Text(name))).push(
        ("title"@, JsonModel::Text(title)),
    ).push(("version"@, JsonModel::Text(version)));
    let capabilities = no_fields().push(("experimentalApi"@, JsonModel::Bool(true))).push(
        ("optOutNotificationMethods"@, json_texts(optouts())),
    );
    object(
        no_fields().push(("clientInfo"@, object(client))).push(
            ("capabilities"@, object(capabilities)),
        ),
    )
}

fn make_hello(name: &str, title: &str, version: &str) -> (r: JsonValue)
    ensures
        r@ == hello(name@, title@, version@),
{
    let client = JsonObject::new().text("name", name).text("title", title).text(
        "version",
        version,
    ).done();
    let capabilities = JsonObject::new().flag("experimentalApi", true).texts(
        "optOutNotificationMethods",
        &optout_list(),
    ).done();
    JsonObject::new().value("clientInfo", client).value("capabilities", capabilities).done()
}

/// A prompt as the one item of a turn's input.
pub open spec fn turn_input(prompt: Seq<char>) -> JsonModel {
    JsonModel::Array(
        Seq::empty().push(
            object(
                no_fields().push(("type"@, JsonModel::Text("text"@))).push(
                    ("text"@, JsonModel::Text(prompt)),
                ).push(("textElements"@, JsonModel::Array(Seq::empty()))),
            ),
        ),
    )
}

fn make_turn_input(prompt: &str) -> (r: JsonValue)
    ensures
        r@ == turn_input(prompt@),
{
    let none = JsonValue::Array(Vec::new());
    assert(none@->Array_0 =~= Seq::<JsonModel>::empty());
    let item = JsonObject::new().text("type", "text").text("text", prompt).value(
        "textElements",
        none,
    ).done();
    let ghost model = item@;
    let mut items: Vec<JsonValue> = Vec::new();
    items.push(item);
    let list = JsonValue::Array(items);
    assert(list@->Array_0 =~= Seq::<JsonModel>::empty().push(model));
    list
}

/// What is to be done for a round, in order.
pub enum RemoteAction {
    Send { text: String },
    Emit { event: BackendEvent },
}

#[allow(inconsistent_fields)]
#[verifier::ext_equal]
pub enum ActionModel {
    Send { text: Seq<char> },
    Line { line: Seq<char> },
    ErrorLine { line: Seq<char> },
    ThreadStarted { thread_id: Seq<char> },
}

impl View for RemoteAction {
    type V = ActionModel;

    open spec fn view(&self) -> ActionModel {
        match *self {
            RemoteAction::Send { text } => ActionModel::Send { text: text@ },
            RemoteAction::Emit { event } => match event {
                BackendEvent::Line { stream, line } => match stream {
                    BackendStream::Stdout => ActionModel::Line { line: line@ },
                    BackendStream::Stderr => ActionModel::ErrorLine { line: line@ },
                },
                BackendEvent::ThreadStarted { thread_id } => ActionModel::ThreadStarted {
                    thread_id: thread_id@,
                },
            },
        }
    }
}

/// One side of the connection: the messages that came in and were not looked
/// at, those that were put aside while an answer is waited for, the number of
/// the last request, and what is to be done.
pub struct RemoteLink {
    pub pending: Vec<JsonValue>,
    pub deferred: Vec<JsonValue>,
    pub last_request: u64,
    pub actions: Vec<RemoteAction>,
}

#[verifier::ext_equal]
pub struct LinkModel {
    pub pending: Seq<JsonModel>,
    pub deferred: Seq<JsonModel>,
    pub last_request: u64,
    pub actions: Seq<ActionModel>,
}

impl View for RemoteLink {
    type V = LinkModel;

    open spec fn view(&self) -> LinkModel {
        LinkModel {
            pending: views(self.pending@),
            deferred: views(self.deferred@),
            last_request: self.last_request,
            actions: views(self.actions@),
        }
    }
}

/// Whether the message answers the request of that number.
pub open spec fn answers(message: JsonModel, request: u64) -> bool {
    match message.get("id"@) {
        Some(id) => id.as_number() == Some(request),
        None => false,
    }
}

fn is_answer(message: &JsonValue, request: u64) -> (r: bool)
    ensures
        r == answers(message@, request),
{
    match message.get("id") {
        Some(id) => match id.as_number() {
            Some(n) => n == request,
            None => false,
        },
        None => false,
    }
}

/// An answer as the result that it carries: an error has a message.
pub open spec fn answered(message: JsonModel, request: u64) -> Result<JsonModel, Seq<char>> {
    match text_at2(message, "error"@, "message"@) {
        Some(e) => Err("remote rpc request "@ + decimal(request as nat) + " failed: "@ + e),
        None => Ok(message),
    }
}

impl LinkModel {
    pub open spec fn fresh() -> LinkModel {
        LinkModel {
            pending: Seq::empty(),
            deferred: Seq::empty(),
            last_request: 0,
            actions: Seq::empty(),
        }
    }

    pub open spec fn act(self, action: ActionModel) -> LinkModel {
        LinkModel { actions: self.actions.push(action), ..self }
    }

    pub open spec fn receive(self, message: JsonModel) -> LinkModel {
        LinkModel { pending: self.pending.push(message), ..self }
    }

    pub open spec fn notify(self, method: Seq<char>) -> LinkModel {
        self.act(
            ActionModel::Send {
                text: object_text(
                    no_fields().push(("method"@, JsonModel::Text(method))).push(
                        ("params"@, object(no_fields())),
                    ),
                ),
            },
        )
    }

    /// The number of the next request.
    pub open spec fn next_request(self) -> u64 {
        if self.last_request == u64::MAX {
            u64::MAX
        } else {
            (self.last_request + 1) as u64
        }
    }

    pub open spec fn request(self, method: Seq<char>, params: JsonModel) -> LinkModel {
        let n = self.next_request();
        LinkModel { last_request: n, ..self }.act(
            ActionModel::Send {
                text: object_text(
                    no_fields().push(("id"@, JsonModel::Number(n))).push(
                        ("method"@, JsonModel::Text(method)),
                    ).push(("params"@, params)),
                ),
            },
        )
    }

    /// Looks for the answer to the last request. Messages that are not it are put
    /// aside, and come back once it is found.
    pub open spec fn look(self) -> (LinkModel, Option<JsonModel>)
        decreases self.pending.len(),
    {
        if self.pending.len() == 0 {
            (self, None)
        } else if answers(self.pending[0], self.last_request) {
            (
                LinkModel {
                    pending: self.pending.skip(1) + self.deferred,
                    deferred: Seq::empty(),
                    ..self
                },
                Some(self.pending[0]),
            )
        } else {
            LinkModel {
                pending: self.pending.skip(1),
                deferred: self.deferred.push(self.pending[0]),
                ..self
            }.look()
        }
    }

    /// The same, with the answer as its result.
    pub open spec fn wait(self) -> (LinkModel, Option<Result<JsonModel, Seq<char>>>) {
        match self.look() {
            (link, Some(message)) => (link, Some(answered(message, self.last_request))),
            (link, None) => (link, None),
        }
    }
}

impl RemoteLink {
    pub fn new() -> (r: RemoteLink)
        ensures
            r@ == LinkModel::fresh(),
    {
        let r = RemoteLink {
            pending: Vec::new(),
            deferred: Vec::new(),
            last_request: 0,
            actions: Vec::new(),
        };
        assert(r@ =~= LinkModel::fresh());
        r
    }

    fn act(&mut self, action: RemoteAction)
        ensures
            final(self)@ == old(self)@.act(action@),
    {
        self.actions.push(action);
        assert(self@ =~= old(self)@.act(action@));
    }

    fn receive(&mut self, message: JsonValue)
        ensures
            final(self)@ == old(self)@.receive(message@),
    {
        self.pending.push(message);
        assert(self@ =~= old(self)@.receive(message@));
    }

    /// Sends a notification without parameters.
    pub fn remote_send_notification(&mut self, method: &str)
        ensures
            final(self)@ == old(self)@.notify(method@),
    {
        let line = JsonObject::new().text("method", method).value(
            "params",
            JsonObject::new().done(),
        ).render();
        self.act(RemoteAction::Send { text: line });
    }

    pub fn remote_send_request(&mut self, method: &str, params: JsonValue)
        ensures
            final(self)@ == old(self)@.request(method@, params@),
    {
        if self.last_request < u64::MAX {
            self.last_request = self.last_request + 1;
        }
        let line = JsonObject::new().number("id", self.last_request).text("method", method).value(
            "params",
            params,
        ).render();
        self.act(RemoteAction::Send { text: line });
    }

    fn look(&mut self) -> (r: Option<JsonValue>)
        ensures
            (final(self)@, match r {
                Some(v) => Some(v@),
                None => None,
            }) == old(self)@.look(),
    {
        while self.pending.len() > 0
            invariant
                self@.look() == old(self)@.look(),
            decreases self.pending.len(),
        {
            let ghost before = self@;
            let message = self.pending.remove(0);
            assert(views(self.pending@) =~= before.pending.skip(1));
            if is_answer(&message, self.last_request) {
                self.pending.append(&mut self.deferred);
                assert(self@ =~= before.look().0);
                return Some(message);
            }
            self.deferred.push(message);
            assert(views(self.deferred@) =~= before.deferred.push(message@));
            assert(self@ =~= (LinkModel {
                pending: before.pending.skip(1),
                deferred: before.deferred.push(before.pending[0]),
                ..before
            }));
        }
        None
    }

    /// Looks for the answer to the last request among the messages that came in.
    pub fn remote_wait_response(&mut self) -> (r: Option<Result<JsonValue, Failure>>)
        ensures
            (final(self)@, match r {
                Some(x) => Some(seen(x)),
                None => None,
            }) == old(self)@.wait(),
    {
        let request: u64 = self.last_request;
        match self.look() {
            Some(message) => match extract_rpc_error_message(&message) {
                Some(e) => Some(
                    Err(
                        Failure::new(
                            text("remote rpc request ").concat(to_decimal(request).as_str()).concat(
                                " failed: ",
                            ).concat(e.as_str()),
                        ),
                    ),
                ),
                None => Some(Ok(message)),
            },
            None => None,
        }
    }

    /// Hands out what is to be done.
    pub fn take_actions(&mut self) -> (r: Vec<RemoteAction>)
        ensures
            views(r@) == old(self)@.actions,
            final(self)@ == (LinkModel { actions: Seq::empty(), ..old(self)@ }),
    {
        let mut r: Vec<RemoteAction> = Vec::new();
        r.append(&mut self.actions);
        assert(views(r@) =~= old(self)@.actions);
        assert(self@ =~= (LinkModel { actions: Seq::empty(), ..old(self)@ }));
        r
    }
}

/// Nothing changes place while an answer is waited for: where the answer is the
/// last message that came in, the others are there in order once it is found.
pub proof fn waiting_keeps_the_order(link: LinkModel)
    requires
        link.pending.len() > 0,
        forall|i: int|
            0 <= i < link.pending.len() - 1 ==> !answers(
                #[trigger] link.pending[i],
                link.last_request,
            ),
        answers(link.pending.last(), link.last_request),
    ensures
        link.look().1 == Some(link.pending.last()),
        link.look().0.pending == link.deferred + link.pending.drop_last(),
        link.look().0.deferred == Seq::<JsonModel>::empty(),
    decreases link.pending.len(),
{
    if link.pending.len() == 1 {
        assert(link.look().0.pending =~= link.deferred + link.pending.drop_last());
    } else {
        let next = LinkModel {
            pending: link.pending.skip(1),
            deferred: link.deferred.push(link.pending[0]),
            ..link
        };
        assert forall|i: int| 0 <= i < next.pending.len() - 1 implies !answers(
            #[trigger] next.pending[i],
            next.last_request,
        ) by {
            assert(next.pending[i] == link.pending[i + 1]);
        }
        waiting_keeps_the_order(next);
        assert(next.deferred + next.pending.drop_last() =~= link.deferred
            + link.pending.drop_last());
    }
}

/// While no message answers the request, all are put aside in order.
pub proof fn waiting_loses_nothing(link: LinkModel)
    requires
        forall|i: int|
            0 <= i < link.pending.len() ==> !answers(#[trigger] link.pending[i], link.last_request),
    ensures
        link.look().1 is None,
        link.look().0.pending == Seq::<JsonModel>::empty(),
        link.look().0.deferred == link.deferred + link.pending,
    decreases link.pending.len(),
{
    if link.pending.len() == 0 {
        assert(link.pending =~= Seq::<JsonModel>::empty());
        assert(link.deferred =~= link.deferred + link.pending);
    } else {
        let next = LinkModel {
            pending: link.pending.skip(1),
            deferred: link.deferred.push(link.pending[0]),
            ..link
        };
        assert forall|i: int| 0 <= i < next.pending.len() implies !answers(
            #[trigger] next.pending[i],
            next.last_request,
        ) by {
            assert(next.pending[i] == link.pending[i + 1]);
        }
        waiting_loses_nothing(next);
        assert(next.deferred + next.pending =~= link.deferred + link.pending);
    }
}

/// The server and the thread of a remote round; the agent has to have both.
pub open spec fn remote_target(agent: AgentModel) -> Result<(Seq<char>, Seq<char>), Seq<char>> {
    match (agent.app_server_url, agent.thread_id) {
        (None, _) => Err("agent "@ + agent.name + " has no registered app-server url"@),
        (Some(_), None) => Err("agent "@ + agent.name + " has no thread id for remote resume"@),
        (Some(url), Some(thread_id)) => Ok((url, thread_id)),
    }
}

/// The server and the thread of a remote round.
pub struct RemoteTarget {
    pub url: String,
    pub thread_id: String,
}

impl View for RemoteTarget {
    type V = (Seq<char>, Seq<char>);

    open spec fn view(&self) -> (Seq<char>, Seq<char>) {
        (self.url@, self.thread_id@)
    }
}

pub fn find_remote_target(agent: &AgentSummary) -> (r: Result<RemoteTarget, Failure>)
    ensures
        seen(r) == remote_target(agent@),
{
    match &agent.app_server_url {
        None => Err(
            Failure::new(
                text("agent ").concat(agent.name.as_str()).concat(
                    " has no registered app-server url",
                ),
            ),
        ),
        Some(url) => match &agent.thread_id {
            None => Err(
                Failure::new(
                    text("agent ").concat(agent.name.as_str()).concat(
                        " has no thread id for remote resume",
                    ),
                ),
            ),
            Some(thread_id) => Ok(
                RemoteTarget { url: url.clone(), thread_id: thread_id.clone() },
            ),
        },
    }
}

/// The identifier of the thing that a response is about.
pub open spec fn result_id(response: JsonModel, kind: Seq<char>) -> Option<Seq<char>> {
    match response.get("result"@) {
        Some(result) => text_at2(result, kind, "id"@),
        None => None,
    }
}

fn find_result_id(response: &JsonValue, kind: &str) -> (r: Option<String>)
    ensures
        opt_text(r) == result_id(response@, kind@),
{
    match response.get("result") {
        Some(result) => match result.get(kind) {
            Some(thing) => thing.text_at("id"),
            None => None,
        },
        None => None,
    }
}

/// The schema, or null where there is none.
pub open spec fn schema_or_null(schema: Option<JsonModel>) -> JsonModel {
    match schema {
        Some(v) => v,
        None => JsonModel::Null,
    }
}

/// How far a round has come: what it waits for, or that it is over.
#[derive(Debug, Clone, Copy, PartialEq, Eq, Structural)]
pub enum RemoteStage {
    Initialize,
    Thread,
    StartTurn,
    Turn,
    Interrupt,
    Over,
}

#[verifier::ext_equal]
pub struct FinishedModel {
    pub parsed: ParsedModel,
    pub stderr_lines: Seq<Seq<char>>,
    pub success: bool,
    pub status_label: Seq<char>,
    pub stopped: bool,
}

impl View for BackendFinished {
    type V = FinishedModel;

    open spec fn view(&self) -> FinishedModel {
        FinishedModel {
            parsed: self.parsed@,
            stderr_lines: texts(self.stderr_lines@),
            success: self.success,
            status_label: self.status_label@,
            stopped: self.stopped,
        }
    }
}

/// A round on a thread that the server already has.
pub struct RemoteRound {
    pub link: RemoteLink,
    pub stage: RemoteStage,
    pub thread_id: String,
    pub turn_id: String,
    /// The turn's parameters, until they are sent.
    pub turn_params: Option<JsonValue>,
    pub parsed: ParsedCodexRound,
    pub stderr_lines: Vec<String>,
    pub outcome: Option<Result<BackendFinished, Failure>>,
}

#[verifier::ext_equal]
pub struct RemoteRoundModel {
    pub link: LinkModel,
    pub stage: RemoteStage,
    pub thread_id: Seq<char>,
    pub turn_id: Seq<char>,
    pub turn_params: Option<JsonModel>,
    pub parsed: ParsedModel,
    pub stderr_lines: Seq<Seq<char>>,
    pub outcome: Option<Result<FinishedModel, Seq<char>>>,
}

impl View for RemoteRound {
    type V = RemoteRoundModel;

    open spec fn view(&self) -> RemoteRoundModel {
        RemoteRoundModel {
            link: self.link@,
            stage: self.stage,
            thread_id: self.thread_id@,
            turn_id: self.turn_id@,
            turn_params: view_opt(self.turn_params),
            parsed: self.parsed@,
            stderr_lines: texts(self.stderr_lines@),
            outcome: match self.outcome {
                Some(r) => Some(seen(r)),
                None => None,
            },
        }
    }
}

/// What `turn/start` says in a remote round.
pub open spec fn remote_turn(
    thread_id: Seq<char>,
    prompt: Seq<char>,
    schema: Option<JsonModel>,
) -> JsonModel {
    object(
        no_fields().push(("threadId"@, JsonModel::Text(thread_id))).push(
            ("input"@, turn_input(prompt)),
        ).push(("outputSchema"@, schema_or_null(schema))),
    )
}

impl RemoteRoundModel {
    /// A round whose first request is to be sent.
    pub open spec fn begin(
        thread_id: Seq<char>,
        prompt: Seq<char>,
        schema: Option<JsonModel>,
        version: Seq<char>,
    ) -> RemoteRoundModel {
        RemoteRoundModel {
            link: LinkModel::fresh().request(
                "initialize"@,
                hello("agenttool_runtime"@, "AgentTool Runtime"@, version),
            ),
            stage: RemoteStage::Initialize,
            thread_id,
            turn_id: ""@,
            turn_params: Some(remote_turn(thread_id, prompt, schema)),
            parsed: ParsedModel {
                thread_id: Some(thread_id),
                final_message: None,
                error_message: None,
            },
            stderr_lines: Seq::empty(),
            outcome: None,
        }
    }

    pub open spec fn broken(self, e: Seq<char>) -> RemoteRoundModel {
        RemoteRoundModel { stage: RemoteStage::Over, outcome: Some(Err(e)), ..self }
    }

    pub open spec fn over(self, success: bool, status_label: Seq<char>, stopped: bool) -> RemoteRoundModel {
        RemoteRoundModel {
            stage: RemoteStage::Over,
            outcome: Some(
                Ok(
                    FinishedModel {
                        parsed: self.parsed,
                        stderr_lines: self.stderr_lines,
                        success,
                        status_label,
                        stopped,
                    },
                ),
            ),
            ..self
        }
    }

    /// After a stop, the round is over whatever the interruption gave.
    pub open spec fn stopped(self) -> RemoteRoundModel {
        self.over(false, "stopped by request"@, true)
    }

    pub open spec fn complain(self, e: Seq<char>) -> RemoteRoundModel {
        RemoteRoundModel { stderr_lines: self.stderr_lines.push(e), ..self }
    }

    pub open spec fn enter(self, stage: RemoteStage, link: LinkModel) -> RemoteRoundModel {
        RemoteRoundModel { stage, link, ..self }
    }

    /// Passes on the messages of the turn until it has ended.
    pub open spec fn run_turn(self) -> RemoteRoundModel
        decreases self.link.pending.len(),
    {
        if self.link.pending.len() == 0 {
            self
        } else {
            let message = self.link.pending[0];
            let (parsed, started) = self.parsed.ingest(message);
            let passed = LinkModel { pending: self.link.pending.skip(1), ..self.link }.act(
                ActionModel::Line { line: json_text(message) },
            );
            let link = match started {
                Some(thread_id) => passed.act(ActionModel::ThreadStarted { thread_id }),
                None => passed,
            };
            let next = RemoteRoundModel { link, parsed, ..self };
            match completed_turn(message) {
                Some(turn) => if turn.turn_id == self.turn_id {
                    match turn.error_message {
                        Some(e) => RemoteRoundModel {
                            parsed: ParsedModel { error_message: Some(e), ..parsed },
                            ..next
                        }.complain(e),
                        None => next,
                    }.over(turn.status == "completed"@, turn.status, false)
                } else {
                    next.run_turn()
                },
                None => next.run_turn(),
            }
        }
    }

    pub open spec fn run_start_turn(self) -> RemoteRoundModel {
        match self.link.wait() {
            (link, None) => self.enter(self.stage, link),
            (link, Some(Err(e))) => self.enter(self.stage, link).broken(e),
            (link, Some(Ok(response))) => match result_id(response, "turn"@) {
                None => self.enter(self.stage, link).broken(
                    "remote turn/start did not return turn id"@,
                ),
                Some(turn_id) => RemoteRoundModel {
                    turn_id,
                    ..self.enter(RemoteStage::Turn, link)
                }.run_turn(),
            },
        }
    }

    pub open spec fn run_thread(self) -> RemoteRoundModel {
        match self.link.wait() {
            (link, None) => self.enter(self.stage, link),
            (link, Some(Err(e))) => self.enter(self.stage, link).broken(e),
            (link, Some(Ok(_))) => RemoteRoundModel {
                turn_params: None,
                ..self.enter(
                    RemoteStage::StartTurn,
                    link.act(ActionModel::ThreadStarted { thread_id: self.thread_id }).request(
                        "turn/start"@,
                        schema_or_null(self.turn_params),
                    ),
                )
            }.run_start_turn(),
        }
    }

    pub open spec fn run_initialize(self) -> RemoteRoundModel {
        match self.link.wait() {
            (link, None) => self.enter(self.stage, link),
            (link, Some(Err(e))) => self.enter(self.stage, link).broken(e),
            (link, Some(Ok(_))) => self.enter(
                RemoteStage::Thread,
                link.notify("initialized"@).request(
                    "thread/resume"@,
                    object(
                        no_fields().push(("threadId"@, JsonModel::Text(self.thread_id))),
                    ),
                ),
            ).run_thread(),
        }
    }

    pub open spec fn run_interrupt(self) -> RemoteRoundModel {
        match self.link.wait() {
            (link, None) => self.enter(self.stage, link),
            (link, Some(Err(e))) => self.enter(self.stage, link).complain(e).stopped(),
            (link, Some(Ok(_))) => self.enter(self.stage, link).stopped(),
        }
    }

    /// A message has come in.
    pub open spec fn feed(self, message: JsonModel) -> RemoteRoundModel {
        let next = RemoteRoundModel { link: self.link.receive(message), ..self };
        match self.stage {
            RemoteStage::Initialize => next.run_initialize(),
            RemoteStage::Thread => next.run_thread(),
            RemoteStage::StartTurn => next.run_start_turn(),
            RemoteStage::Turn => next.run_turn(),
            RemoteStage::Interrupt => next.run_interrupt(),
            RemoteStage::Over => self,
        }
    }

    /// The round is to stop. Before its turn runs there is nothing to interrupt.
    pub open spec fn stop(self) -> RemoteRoundModel {
        if self.stage is Turn {
            self.enter(
                RemoteStage::Interrupt,
                self.link.request(
                    "turn/interrupt"@,
                    object(
                        no_fields().push(("threadId"@, JsonModel::Text(self.thread_id))).push(
                            ("turnId"@, JsonModel::Text(self.turn_id)),
                        ),
                    ),
                ),
            ).run_interrupt()
        } else {
            self
        }
    }

    /// The connection failed. Once the round is to stop, that is noted only.
    pub open spec fn fail(self, e: Seq<char>) -> RemoteRoundModel {
        match self.stage {
            RemoteStage::Over => self,
            RemoteStage::Interrupt => self.complain(e).stopped(),
            _ => self.broken(e),
        }
    }
}

fn move_schema(schema: Option<JsonValue>) -> (r: JsonValue)
    ensures
        r@ == schema_or_null(view_opt(schema)),
{
    match schema {
        Some(v) => v,
        None => JsonValue::Null,
    }
}

impl RemoteRound {
    /// Begins a round: the first request is to be sent.
    pub fn begin(
        target: RemoteTarget,
        prompt: &str,
        schema: Option<JsonValue>,
        version: &str,
    ) -> (r: RemoteRound)
        ensures
            r@ == RemoteRoundModel::begin(target.thread_id@, prompt@, view_opt(schema), version@),
    {
        let mut link = RemoteLink::new();
        link.remote_send_request(
            "initialize",
            make_hello("agenttool_runtime", "AgentTool Runtime", version),
        );
        let params = JsonObject::new().text("threadId", target.thread_id.as_str()).value(
            "input",
            make_turn_input(prompt),
        ).value("outputSchema", move_schema(schema)).done();
        let r = RemoteRound {
            link,
            stage: RemoteStage::Initialize,
            thread_id: target.thread_id.clone(),
            turn_id: text(""),
            turn_params: Some(params),
            parsed: ParsedCodexRound::new(Some(target.thread_id)),
            stderr_lines: Vec::new(),
            outcome: None,
        };
        assert(texts(r.stderr_lines@) =~= Seq::empty());
        r
    }

    fn broken(&mut self, e: Failure)
        ensures
            final(self)@ == old(self)@.broken(e.message@),
    {
        self.stage = RemoteStage::Over;
        self.outcome = Some(Err(e));
    }

    fn over(&mut self, success: bool, status_label: String, stopped: bool)
        ensures
            final(self)@ == old(self)@.over(success, status_label@, stopped),
    {
        let finished = BackendFinished {
            parsed: ParsedCodexRound {
                thread_id: copy_text(&self.parsed.thread_id),
                final_message: copy_text(&self.parsed.final_message),
                error_message: copy_text(&self.parsed.error_message),
            },
            stderr_lines: copy_texts(&self.stderr_lines),
            success,
            status_label,
            stopped,
        };
        self.stage = RemoteStage::Over;
        self.outcome = Some(Ok(finished));
    }

    fn stopped(&mut self)
        ensures
            final(self)@ == old(self)@.stopped(),
    {
        self.over(false, text("stopped by request"), true);
    }

    fn complain(&mut self, e: String)
        ensures
            final(self)@ == old(self)@.complain(e@),
    {
        self.stderr_lines.push(e);
        assert(texts(self.stderr_lines@) =~= old(self)@.stderr_lines.push(e@));
    }

    fn run_turn(&mut self)
        ensures
            final(self)@ == old(self)@.run_turn(),
    {
        while self.link.pending.len() > 0
            invariant
                self@.run_turn() == old(self)@.run_turn(),
            decreases self.link.pending.len(),
        {
            let ghost before = self@;
            let message = self.link.pending.remove(0);
            assert(views(self.link.pending@) =~= before.link.pending.skip(1));
            self.link.act(
                RemoteAction::Emit {
                    event: BackendEvent::Line {
                        stream: BackendStream::Stdout,
                        line: render_json(&message),
                    },
                },
            );
            match self.parsed.ingest_json_value(&message) {
                Some(thread_id) => self.link.act(
                    RemoteAction::Emit { event: BackendEvent::ThreadStarted { thread_id } },
                ),
                None => {},
            }
            match extract_remote_turn_completed(&message) {
                Some(turn) => {
                    if same_text(turn.turn_id.as_str(), self.turn_id.as_str()) {
                        match turn.error_message {
                            Some(e) => {
                                self.parsed.error_message = Some(e.clone());
                                self.complain(e);
                            },
                            None => {},
                        }
                        let success = same_text(turn.status.as_str(), "completed");
                        self.over(success, turn.status, false);
                        return;
                    }
                },
                None => {},
            }
        }
    }

    fn run_start_turn(&mut self)
        ensures
            final(self)@ == old(self)@.run_start_turn(),
    {
        match self.link.remote_wait_response() {
            None => {},
            Some(Err(e)) => self.broken(e),
            Some(Ok(response)) => match find_result_id(&response, "turn") {
                None => self.broken(
                    Failure::new(text("remote turn/start did not return turn id")),
                ),
                Some(turn_id) => {
                    self.turn_id = turn_id;
                    self.stage = RemoteStage::Turn;
                    self.run_turn();
                },
            },
        }
    }

    fn run_thread(&mut self)
        ensures
            final(self)@ == old(self)@.run_thread(),
    {
        match self.link.remote_wait_response() {
            None => {},
            Some(Err(e)) => self.broken(e),
            Some(Ok(_)) => {
                let thread_id = self.thread_id.clone();
                self.link.act(
                    RemoteAction::Emit { event: BackendEvent::ThreadStarted { thread_id } },
                );
                let params = move_schema(self.turn_params.take());
                self.link.remote_send_request("turn/start", params);
                self.stage = RemoteStage::StartTurn;
                self.run_start_turn();
            },
        }
    }

    fn run_initialize(&mut self)
        ensures
            final(self)@ == old(self)@.run_initialize(),
    {
        match self.link.remote_wait_response() {
            None => {},
            Some(Err(e)) => self.broken(e),
            Some(Ok(_)) => {
                self.link.remote_send_notification("initialized");
                let params = JsonObject::new().text("threadId", self.thread_id.as_str()).done();
                self.link.remote_send_request("thread/resume", params);
                self.stage = RemoteStage::Thread;
                self.run_thread();
            },
        }
    }

    fn run_interrupt(&mut self)
        ensures
            final(self)@ == old(self)@.run_interrupt(),
    {
        match self.link.remote_wait_response() {
            None => {},
            Some(Err(e)) => {
                self.complain(e.message);
                self.stopped();
            },
            Some(Ok(_)) => self.stopped(),
        }
    }

    /// Takes in a message.
    pub fn feed(&mut self, message: JsonValue)
        ensures
            final(self)@ == old(self)@.feed(message@),
    {
        match self.stage {
            RemoteStage::Initialize => {
                self.link.receive(message);
                self.run_initialize();
            },
            RemoteStage::Thread => {
                self.link.receive(message);
                self.run_thread();
            },
            RemoteStage::StartTurn => {
                self.link.receive(message);
                self.run_start_turn();
            },
            RemoteStage::Turn => {
                self.link.receive(message);
                self.run_turn();
            },
            RemoteStage::Interrupt => {
                self.link.receive(message);
                self.run_interrupt();
            },
            RemoteStage::Over => {},
        }
    }

    /// Interrupts the turn.
    pub fn remote_interrupt_turn(&mut self)
        ensures
            final(self)@ == old(self)@.stop(),
    {
        match self.stage {
            RemoteStage::Turn => {
                let params = JsonObject::new().text("threadId", self.thread_id.as_str()).text(
                    "turnId",
                    self.turn_id.as_str(),
                ).done();
                self.link.remote_send_request("turn/interrupt", params);
                self.stage = RemoteStage::Interrupt;
                self.run_interrupt();
            },
            _ => {},
        }
    }

    /// Takes in that the connection failed.
    pub fn fail(&mut self, e: Failure)
        ensures
            final(self)@ == old(self)@.fail(e.message@),
    {
        match self.stage {
            RemoteStage::Over => {},
            RemoteStage::Interrupt => {
                self.complain(e.message);
                self.stopped();
            },
            _ => self.broken(e),
        }
    }
}

/// The first round of an app server that was just started, on a thread of its own.
pub struct BootstrapRound {
    pub link: RemoteLink,
    pub stage: RemoteStage,
    pub agent_name: String,
    pub cwd: String,
    pub instructions: Option<String>,
    pub prompt: String,
    pub turn_id: String,
    /// The output schema, until it is sent.
    pub schema: Option<JsonValue>,
    pub parsed: ParsedCodexRound,
    pub outcome: Option<Result<AgentRoundResult, Failure>>,
}

#[verifier::ext_equal]
pub struct BootstrapModel {
    pub link: LinkModel,
    pub stage: RemoteStage,
    pub agent_name: Seq<char>,
    pub cwd: Seq<char>,
    pub instructions: Option<Seq<char>>,
    pub prompt: Seq<char>,
    pub turn_id: Seq<char>,
    pub schema: Option<JsonModel>,
    pub parsed: ParsedModel,
    pub outcome: Option<Result<RoundModel, Seq<char>>>,
}

impl View for BootstrapRound {
    type V = BootstrapModel;

    open spec fn view(&self) -> BootstrapModel {
        BootstrapModel {
            link: self.link@,
            stage: self.stage,
            agent_name: self.agent_name@,
            cwd: self.cwd@,
            instructions: opt_text(self.instructions),
            prompt: self.prompt@,
            turn_id: self.turn_id@,
            schema: view_opt(self.schema),
            parsed: self.parsed@,
            outcome: match self.outcome {
                Some(r) => Some(seen(r)),
                None => None,
            },
        }
    }
}

impl BootstrapModel {
    /// What `thread/start` says.
    pub open spec fn thread_params(self) -> JsonModel {
        object(
            no_fields().push(("cwd"@, JsonModel::Text(self.cwd))).push(
                ("serviceName"@, JsonModel::Text("agenttool_managed_session"@)),
            ).push(("developerInstructions"@, json_opt(self.instructions))).push(
                ("personality"@, JsonModel::Text("pragmatic"@)),
            ).push(("experimentalRawEvents"@, JsonModel::Bool(false))).push(
                ("persistExtendedHistory"@, JsonModel::Bool(false)),
            ),
        )
    }

    /// What `turn/start` says.
    pub open spec fn turn_params(self, thread_id: Seq<char>) -> JsonModel {
        object(
            no_fields().push(("threadId"@, JsonModel::Text(thread_id))).push(
                ("input"@, turn_input(self.prompt)),
            ).push(("cwd"@, JsonModel::Text(self.cwd))).push(
                ("outputSchema"@, schema_or_null(self.schema)),
            ),
        )
    }

    /// A round whose first request is to be sent.
    pub open spec fn begin(
        agent_name: Seq<char>,
        cwd: Seq<char>,
        instructions: Option<Seq<char>>,
        prompt: Seq<char>,
        schema: Option<JsonModel>,
        version: Seq<char>,
    ) -> BootstrapModel {
        BootstrapModel {
            link: LinkModel::fresh().request(
                "initialize"@,
                hello("agenttool_managed_bootstrap"@, "AgentTool Managed Bootstrap"@, version),
            ),
            stage: RemoteStage::Initialize,
            agent_name,
            cwd,
            instructions,
            prompt,
            turn_id: ""@,
            schema,
            parsed: ParsedModel { thread_id: None, final_message: None, error_message: None },
            outcome: None,
        }
    }

    pub open spec fn over(self, outcome: Result<RoundModel, Seq<char>>) -> BootstrapModel {
        BootstrapModel { stage: RemoteStage::Over, outcome: Some(outcome), ..self }
    }

    pub open spec fn enter(self, stage: RemoteStage, link: LinkModel) -> BootstrapModel {
        BootstrapModel { stage, link, ..self }
    }

    /// How the round is answered once its turn has ended.
    pub open spec fn concluded(self, status: Seq<char>, now: Timestamp) -> Result<
        RoundModel,
        Seq<char>,
    > {
        if status != "completed"@ {
            Err(
                text_or(
                    self.parsed.error_message,
                    "managed bootstrap turn did not complete successfully"@,
                ),
            )
        } else {
            round_result(self.parsed, self.agent_name, now)
        }
    }

    /// Takes in the messages of the turn until it has ended.
    pub open spec fn run_turn(self, now: Timestamp) -> BootstrapModel
        decreases self.link.pending.len(),
    {
        if self.link.pending.len() == 0 {
            self
        } else {
            let message = self.link.pending[0];
            let parsed = self.parsed.ingest(message).0;
            let link = LinkModel { pending: self.link.pending.skip(1), ..self.link };
            let next = BootstrapModel { link, parsed, ..self };
            match completed_turn(message) {
                Some(turn) => if turn.turn_id == self.turn_id {
                    let told = match turn.error_message {
                        Some(e) => BootstrapModel {
                            parsed: ParsedModel { error_message: Some(e), ..parsed },
                            ..next
                        },
                        None => next,
                    };
                    told.over(told.concluded(turn.status, now))
                } else {
                    next.run_turn(now)
                },
                None => next.run_turn(now),
            }
        }
    }

    pub open spec fn run_start_turn(self, now: Timestamp) -> BootstrapModel {
        match self.link.wait() {
            (link, None) => self.enter(self.stage, link),
            (link, Some(Err(e))) => self.enter(self.stage, link).over(Err(e)),
            (link, Some(Ok(response))) => match result_id(response, "turn"@) {
                None => self.enter(self.stage, link).over(
                    Err("managed bootstrap turn/start did not return turn id"@),
                ),
                Some(turn_id) => BootstrapModel {
                    turn_id,
                    ..self.enter(RemoteStage::Turn, link)
                }.run_turn(now),
            },
        }
    }

    pub open spec fn run_thread(self, now: Timestamp) -> BootstrapModel {
        match self.link.wait() {
            (link, None) => self.enter(self.stage, link),
            (link, Some(Err(e))) => self.enter(self.stage, link).over(Err(e)),
            (link, Some(Ok(response))) => match result_id(response, "thread"@) {
                None => self.enter(self.stage, link).over(
                    Err("managed bootstrap thread/start did not return thread id"@),
                ),
                Some(thread_id) => BootstrapModel {
                    schema: None,
                    parsed: ParsedModel { thread_id: Some(thread_id), ..self.parsed },
                    ..self.enter(
                        RemoteStage::StartTurn,
                        link.request("turn/start"@, self.turn_params(thread_id)),
                    )
                }.run_start_turn(now),
            },
        }
    }

    pub open spec fn run_initialize(self, now: Timestamp) -> BootstrapModel {
        match self.link.wait() {
            (link, None) => self.enter(self.stage, link),
            (link, Some(Err(e))) => self.enter(self.stage, link).over(Err(e)),
            (link, Some(Ok(_))) => self.enter(
                RemoteStage::Thread,
                link.notify("initialized"@).request("thread/start"@, self.thread_params()),
            ).run_thread(now),
        }
    }

    /// A message has come in.
    pub open spec fn feed(self, message: JsonModel, now: Timestamp) -> BootstrapModel {
        let next = BootstrapModel { link: self.link.receive(message), ..self };
        match self.stage {
            RemoteStage::Initialize => next.run_initialize(now),
            RemoteStage::Thread => next.run_thread(now),
            RemoteStage::StartTurn => next.run_start_turn(now),
            RemoteStage::Turn => next.run_turn(now),
            _ => self,
        }
    }

    /// The connection failed.
    pub open spec fn fail(self, e: Seq<char>) -> BootstrapModel {
        if self.stage is Over {
            self
        } else {
            self.over(Err(e))
        }
    }
}

impl BootstrapRound {
    /// Begins a round: the first request is to be sent.
    pub fn begin(
        agent_name: &str,
        cwd: &str,
        instructions: Option<String>,
        prompt: &str,
        schema: Option<JsonValue>,
        version: &str,
    ) -> (r: BootstrapRound)
        ensures
            r@ == BootstrapModel::begin(
                agent_name@,
                cwd@,
                opt_text(instructions),
                prompt@,
                view_opt(schema),
                version@,
            ),
    {
        let mut link = RemoteLink::new();
        link.remote_send_request(
            "initialize",
            make_hello("agenttool_managed_bootstrap", "AgentTool Managed Bootstrap", version),
        );
        BootstrapRound {
            link,
            stage: RemoteStage::Initialize,
            agent_name: text(agent_name),
            cwd: text(cwd),
            instructions,
            prompt: text(prompt),
            turn_id: text(""),
            schema,
            parsed: ParsedCodexRound::new(None),
            outcome: None,
        }
    }

    fn over(&mut self, outcome: Result<AgentRoundResult, Failure>)
        ensures
            final(self)@ == old(self)@.over(seen(outcome)),
    {
        self.stage = RemoteStage::Over;
        self.outcome = Some(outcome);
    }

    fn concluded(&self, status: &str, now: Timestamp) -> (r: Result<AgentRoundResult, Failure>)
        ensures
            seen(r) == self@.concluded(status@, now),
    {
        if !same_text(status, "completed") {
            let detail = match copy_text(&self.parsed.error_message) {
                Some(e) => e,
                None => text("managed bootstrap turn did not complete successfully"),
            };
            return Err(Failure::new(detail));
        }
        let parsed = ParsedCodexRound {
            thread_id: copy_text(&self.parsed.thread_id),
            final_message: copy_text(&self.parsed.final_message),
            error_message: copy_text(&self.parsed.error_message),
        };
        parsed.into_round_result(self.agent_name.as_str(), now)
    }

    fn run_turn(&mut self, now: Timestamp)
        ensures
            final(self)@ == old(self)@.run_turn(now),
    {
        while self.link.pending.len() > 0
            invariant
                self@.run_turn(now) == old(self)@.run_turn(now),
            decreases self.link.pending.len(),
        {
            let ghost before = self@;
            let message = self.link.pending.remove(0);
            assert(views(self.link.pending@) =~= before.link.pending.skip(1));
            self.parsed.ingest_json_value(&message);
            match extract_remote_turn_completed(&message) {
                Some(turn) => {
                    if same_text(turn.turn_id.as_str(), self.turn_id.as_str()) {
                        if turn.error_message.is_some() {
                            self.parsed.error_message = turn.error_message;
                        }
                        let outcome = self.concluded(turn.status.as_str(), now);
                        self.over(outcome);
                        return;
                    }
                },
                None => {},
            }
        }
    }

    fn run_start_turn(&mut self, now: Timestamp)
        ensures
            final(self)@ == old(self)@.run_start_turn(now),
    {
        match self.link.remote_wait_response() {
            None => {},
            Some(Err(e)) => self.over(Err(e)),
            Some(Ok(response)) => match find_result_id(&response, "turn") {
                None => self.over(
                    Err(
                        Failure::new(
                            text("managed bootstrap turn/start did not return turn id"),
                        ),
                    ),
                ),
                Some(turn_id) => {
                    self.turn_id = turn_id;
                    self.stage = RemoteStage::Turn;
                    self.run_turn(now);
                },
            },
        }
    }

    fn run_thread(&mut self, now: Timestamp)
        ensures
            final(self)@ == old(self)@.run_thread(now),
    {
        match self.link.remote_wait_response() {
            None => {},
            Some(Err(e)) => self.over(Err(e)),
            Some(Ok(response)) => match find_result_id(&response, "thread") {
                None => self.over(
                    Err(
                        Failure::new(
                            text("managed bootstrap thread/start did not return thread id"),
                        ),
                    ),
                ),
                Some(thread_id) => {
                    let schema = move_schema(self.schema.take());
                    let params = JsonObject::new().text("threadId", thread_id.as_str()).value(
                        "input",
                        make_turn_input(self.prompt.as_str()),
                    ).text("cwd", self.cwd.as_str()).value("outputSchema", schema).done();
                    self.parsed.thread_id = Some(thread_id);
                    self.link.remote_send_request("turn/start", params);
                    self.stage = RemoteStage::StartTurn;
                    self.run_start_turn(now);
                },
            },
        }
    }

    fn run_initialize(&mut self, now: Timestamp)
        ensures
            final(self)@ == old(self)@.run_initialize(now),
    {
        match self.link.remote_wait_response() {
            None => {},
            Some(Err(e)) => self.over(Err(e)),
            Some(Ok(_)) => {
                self.link.remote_send_notification("initialized");
                let params = JsonObject::new().text("cwd", self.cwd.as_str()).text(
                    "serviceName",
                    "agenttool_managed_session",
                ).opt_text("developerInstructions", &self.instructions).text(
                    "personality",
                    "pragmatic",
                ).flag("experimentalRawEvents", false).flag("persistExtendedHistory", false).done();
                self.link.remote_send_request("thread/start", params);
                self.stage = RemoteStage::Thread;
                self.run_thread(now);
            },
        }
    }

    /// Takes in a message.
    pub fn feed(&mut self, message: JsonValue, now: Timestamp)
        ensures
            final(self)@ == old(self)@.feed(message@, now),
    {
        match self.stage {
            RemoteStage::Initialize => {
                self.link.receive(message);
                self.run_initialize(now);
            },
            RemoteStage::Thread => {
                self.link.receive(message);
                self.run_thread(now);
            },
            RemoteStage::StartTurn => {
                self.link.receive(message);
                self.run_start_turn(now);
            },
            RemoteStage::Turn => {
                self.link.receive(message);
                self.run_turn(now);
            },
            _ => {},
        }
    }

    /// Takes in that the connection failed.
    pub fn fail(&mut self, e: Failure)
        ensures
            final(self)@ == old(self)@.fail(e.message@),
    {
        match self.stage {
            RemoteStage::Over => {},
            _ => self.over(Err(e)),
        }
    }
}

/// A round that was stopped never counts as a success.
pub proof fn stopped_round_has_no_success(round: RemoteRoundModel, message: JsonModel)
    requires
        round.stage is Interrupt,
    ensures
        match round.feed(message).outcome {
            Some(Ok(finished)) => round.outcome is None ==> finished.stopped && !finished.success,
            Some(Err(_)) => round.outcome is Some,
            None => round.outcome is None,
        },
{
}

/// A round that is over stays as it is.
pub proof fn finished_round_stays(round: RemoteRoundModel, message: JsonModel, e: Seq<char>)
    requires
        round.stage is Over,
    ensures
        round.feed(message) == round,
        round.fail(e) == round,
        round.stop() == round,
{
}

} // verus!
