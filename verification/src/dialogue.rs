//! What is said to an app server, and what is made of its answers.

use vstd::prelude::*;

use crate::backend::completed_turn;
use crate::json::{fields_map, json_text, no_fields, object, read_json, JsonModel};
use crate::listening::{holds, inner_message, lemma_reads, no_inner_message, reads};
use crate::models::AgentModel;
use crate::remote::{
    answered, answers, frame_step, hello, remote_target, remote_turn, result_id, turn_input,
    ActionModel, BootstrapModel, FrameModel, LinkModel, RemoteFrame, RemoteRoundModel,
};
use crate::text::decimal;
use crate::time::Timestamp;

verus! {

/// An object with one more field.
pub broadcast proof fn pushed_field(
    fields: Seq<(Seq<char>, JsonModel)>,
    field: (Seq<char>, JsonModel),
)
    ensures
        #[trigger] fields_map(fields.push(field)) == fields_map(fields).insert(field.0, field.1),
{
    assert(fields.push(field).drop_last() =~= fields);
}

/// The input of a turn is the prompt, and nothing else.
pub open spec fn is_input(v: JsonModel, prompt: Seq<char>) -> bool {
    v matches JsonModel::Array(items) && items.len() == 1 && reads(items[0], "type"@, "text"@)
        && reads(items[0], "text"@, prompt)
}

/// The value asks for a turn on the thread, with the prompt and the schema, if there is one.
pub open spec fn asks_for_turn(
    v: JsonModel,
    thread_id: Seq<char>,
    prompt: Seq<char>,
    schema: Option<JsonModel>,
) -> bool {
    &&& reads(v, "threadId"@, thread_id)
    &&& exists|input: JsonModel| #[trigger] holds(v, "input"@, input) && is_input(input, prompt)
    &&& schema matches Some(s) ==> holds(v, "outputSchema"@, s)
    &&& schema is None ==> holds(v, "outputSchema"@, JsonModel::Null)
}

proof fn lemma_input(prompt: Seq<char>)
    ensures
        is_input(turn_input(prompt), prompt),
{
    broadcast use pushed_field;

    reveal_strlit("type");
    reveal_strlit("text");
    reveal_strlit("textElements");
    assert("type"@[1] != "text"@[1]);
    assert("textElements"@.len() != "text"@.len());
    assert("textElements"@.len() != "type"@.len());
}

/// The turn of a remote round is asked for on the agent's thread, with the prompt and the
/// schema of the round.
pub proof fn remote_turn_asks_for_the_round(
    thread_id: Seq<char>,
    prompt: Seq<char>,
    schema: Option<JsonModel>,
)
    ensures
        asks_for_turn(remote_turn(thread_id, prompt, schema), thread_id, prompt, schema),
{
    broadcast use pushed_field;

    lemma_input(prompt);
    reveal_strlit("threadId");
    reveal_strlit("input");
    reveal_strlit("outputSchema");
    assert("threadId"@.len() != "input"@.len());
    assert("threadId"@.len() != "outputSchema"@.len());
    assert("input"@.len() != "outputSchema"@.len());
    let v = remote_turn(thread_id, prompt, schema);
    assert(holds(v, "input"@, turn_input(prompt)));
}

/// The turn of a bootstrap is asked for on the thread that was started, in the agent's
/// directory, with the prompt and the schema of the bootstrap; its thread is started in that
/// directory with the agent's instructions.
pub proof fn bootstrap_asks_for_its_turn(b: BootstrapModel, thread_id: Seq<char>)
    ensures
        asks_for_turn(b.turn_params(thread_id), thread_id, b.prompt, b.schema),
        reads(b.turn_params(thread_id), "cwd"@, b.cwd),
        reads(b.thread_params(), "cwd"@, b.cwd),
        b.instructions matches Some(s) ==> reads(b.thread_params(), "developerInstructions"@, s),
        b.instructions is None ==> holds(
            b.thread_params(),
            "developerInstructions"@,
            JsonModel::Null,
        ),
{
    broadcast use pushed_field;

    lemma_input(b.prompt);
    reveal_strlit("threadId");
    reveal_strlit("input");
    reveal_strlit("outputSchema");
    reveal_strlit("cwd");
    assert("threadId"@.len() != "input"@.len());
    assert("threadId"@.len() != "outputSchema"@.len());
    assert("input"@.len() != "outputSchema"@.len());
    assert("cwd"@.len() == 3);
    let v = b.turn_params(thread_id);
    assert(holds(v, "input"@, turn_input(b.prompt)));
    reveal_strlit("serviceName");
    reveal_strlit("developerInstructions");
    reveal_strlit("personality");
    reveal_strlit("experimentalRawEvents");
    reveal_strlit("persistExtendedHistory");
    assert("developerInstructions"@[0] != "experimentalRawEvents"@[0]);
    assert("serviceName"@[0] != "personality"@[0]);
}

/// The action sends a request of that number and method, with these parameters.
pub open spec fn sends(
    action: ActionModel,
    number: u64,
    method: Seq<char>,
    params: JsonModel,
) -> bool {
    exists|v: JsonModel|
        action == (ActionModel::Send { text: #[trigger] json_text(v) }) && holds(
            v,
            "id"@,
            JsonModel::Number(number),
        ) && reads(v, "method"@, method) && holds(v, "params"@, params)
}

/// A request is sent with the next number, under its method and with its parameters.
pub proof fn request_is_sent(link: LinkModel, method: Seq<char>, params: JsonModel)
    ensures
        ({
            let after = link.request(method, params);
            &&& link.last_request < u64::MAX ==> after.last_request == link.last_request + 1
            &&& after.actions.len() == link.actions.len() + 1
            &&& after.actions.drop_last() == link.actions
            &&& sends(after.actions.last(), after.last_request, method, params)
            &&& after.pending == link.pending && after.deferred == link.deferred
        }),
{
    broadcast use pushed_field;

    let after = link.request(method, params);
    assert(after.actions.drop_last() =~= link.actions);
    reveal_strlit("id");
    reveal_strlit("method");
    reveal_strlit("params");
    assert("method"@[0] != "params"@[0]);
    assert("id"@.len() == 2);
    let v = object(
        no_fields().push(("id"@, JsonModel::Number(after.last_request))).push(
            ("method"@, JsonModel::Text(method)),
        ).push(("params"@, params)),
    );
    assert(after.actions.last() == (ActionModel::Send { text: json_text(v) }));
}

/// A message answers the request whose number it has, and an answer is an error where it
/// has an error with a message.
pub proof fn answer_is_known_by_its_number(message: JsonModel, request: u64)
    ensures
        answers(message, request) <==> holds(message, "id"@, JsonModel::Number(request)),
        answered(message, request) is Err <==> !no_inner_message(message, "error"@),
        forall|e: Seq<char>| #[trigger]
            inner_message(message, "error"@, e) ==> answered(message, request) == Err::<
                JsonModel,
                Seq<char>,
            >("remote rpc request "@ + decimal(request as nat) + " failed: "@ + e),
        answered(message, request) matches Ok(v) ==> v == message,
{
    lemma_reads(message, "id"@);
    lemma_reads(message, "error"@);
    if let Some(inner) = message.get("error"@) {
        lemma_reads(inner, "message"@);
        assert(holds(message, "error"@, inner));
        if let Some(s) = inner.text_at("message"@) {
            assert(inner_message(message, "error"@, s));
        }
    }
}

/// The message is the answer to the last request, and is no error.
pub open spec fn grants(link: LinkModel, message: JsonModel) -> bool {
    holds(message, "id"@, JsonModel::Number(link.last_request)) && no_inner_message(
        message,
        "error"@,
    )
}

/// Nothing waits to be looked at.
pub open spec fn quiet(link: LinkModel) -> bool {
    link.pending.len() == 0 && link.deferred.len() == 0
}

proof fn lemma_granted(link: LinkModel, message: JsonModel)
    requires
        quiet(link),
        grants(link, message),
    ensures
        ({
            let r = link.receive(message).wait();
            &&& r.1 == Some(Ok::<JsonModel, Seq<char>>(message))
            &&& quiet(r.0)
            &&& r.0.last_request == link.last_request && r.0.actions == link.actions
        }),
{
    answer_is_known_by_its_number(message, link.last_request);
    let got = link.receive(message);
    assert(got.pending[0] == message);
    assert(got.pending.skip(1) + got.deferred =~= Seq::empty());
}

proof fn lemma_quiet_waits(link: LinkModel)
    requires
        quiet(link),
    ensures
        link.wait() == (link, None::<Result<JsonModel, Seq<char>>>),
{
}

/// A remote round begins by saying hello; once that is answered it says that it is there and
/// resumes the agent's thread, and once that is answered it starts the turn, with the prompt
/// and the schema that the round was begun with.
pub proof fn remote_round_goes_its_way(
    thread_id: Seq<char>,
    prompt: Seq<char>,
    schema: Option<JsonModel>,
    version: Seq<char>,
    hello_answer: JsonModel,
    thread_answer: JsonModel,
)
    ensures
        ({
            let begun = RemoteRoundModel::begin(thread_id, prompt, schema, version);
            let greeted = begun.feed(hello_answer);
            let resumed = greeted.feed(thread_answer);
            &&& begun.stage is Initialize && begun.outcome is None
            &&& begun.link.actions.len() == 1
            &&& exists|params: JsonModel| #[trigger] sends(
                begun.link.actions[0],
                1,
                "initialize"@,
                params,
            )
            &&& grants(begun.link, hello_answer) ==> {
                &&& greeted.stage is Thread && greeted.outcome is None
                &&& greeted.link.actions.len() == 3
                &&& exists|params: JsonModel| #[trigger] sends(
                    greeted.link.actions[2],
                    2,
                    "thread/resume"@,
                    params,
                ) && reads(params, "threadId"@, thread_id)
                &&& grants(greeted.link, thread_answer) ==> {
                    &&& resumed.stage is StartTurn && resumed.outcome is None
                    &&& resumed.link.actions.len() == 5
                    &&& resumed.link.actions[3] == (ActionModel::ThreadStarted { thread_id })
                    &&& exists|params: JsonModel| #[trigger] sends(
                        resumed.link.actions[4],
                        3,
                        "turn/start"@,
                        params,
                    ) && asks_for_turn(params, thread_id, prompt, schema)
                }
            }
        }),
{
    broadcast use pushed_field;

    let begun = RemoteRoundModel::begin(thread_id, prompt, schema, version);
    let fresh = LinkModel::fresh();
    let said = hello("agenttool_runtime"@, "AgentTool Runtime"@, version);
    request_is_sent(fresh, "initialize"@, said);
    assert(sends(begun.link.actions[0], 1, "initialize"@, said));
    if grants(begun.link, hello_answer) {
        lemma_granted(begun.link, hello_answer);
        let r = begun.link.receive(hello_answer).wait();
        let noted = r.0.notify("initialized"@);
        let resume = object(no_fields().push(("threadId"@, JsonModel::Text(thread_id))));
        request_is_sent(noted, "thread/resume"@, resume);
        let asked = noted.request("thread/resume"@, resume);
        lemma_quiet_waits(asked);
        let greeted = begun.feed(hello_answer);
        assert(greeted.link == asked);
        assert(sends(greeted.link.actions[2], 2, "thread/resume"@, resume));
        if grants(greeted.link, thread_answer) {
            lemma_granted(greeted.link, thread_answer);
            let r2 = greeted.link.receive(thread_answer).wait();
            let started = r2.0.act(ActionModel::ThreadStarted { thread_id });
            let turn = remote_turn(thread_id, prompt, schema);
            remote_turn_asks_for_the_round(thread_id, prompt, schema);
            request_is_sent(started, "turn/start"@, turn);
            let asked2 = started.request("turn/start"@, turn);
            lemma_quiet_waits(asked2);
            let resumed = greeted.feed(thread_answer);
            assert(resumed.link == asked2);
            assert(asked2.actions.drop_last()[3] == started.actions[3]);
            assert(sends(resumed.link.actions[4], 3, "turn/start"@, turn));
        }
    }
}

/// A request of a round that is answered with an error breaks the round off with that error.
pub proof fn refused_request_breaks_the_round(
    round: RemoteRoundModel,
    message: JsonModel,
    e: Seq<char>,
)
    requires
        round.stage is Initialize || round.stage is Thread || round.stage is StartTurn,
        quiet(round.link),
        holds(message, "id"@, JsonModel::Number(round.link.last_request)),
        inner_message(message, "error"@, e),
    ensures
        round.feed(message).stage is Over,
        round.feed(message).outcome == Some(
            Err::<crate::remote::FinishedModel, Seq<char>>(
                "remote rpc request "@ + decimal(round.link.last_request as nat) + " failed: "@ + e,
            ),
        ),
{
    answer_is_known_by_its_number(message, round.link.last_request);
    let got = round.link.receive(message);
    assert(got.pending[0] == message);
}

/// Once the start of the turn is answered, the turn runs under the number that the answer
/// gives it; an answer without one breaks the round off.
pub proof fn started_turn_runs(round: RemoteRoundModel, message: JsonModel)
    requires
        round.stage is StartTurn,
        quiet(round.link),
        grants(round.link, message),
    ensures
        ({
            let after = round.feed(message);
            &&& forall|result: JsonModel, turn: JsonModel, id: Seq<char>|
                #[trigger] holds(message, "result"@, result) && #[trigger] holds(
                    result,
                    "turn"@,
                    turn,
                ) && #[trigger] reads(turn, "id"@, id) ==> after.stage is Turn && after.turn_id
                    == id && after.outcome == round.outcome
            &&& result_id(message, "turn"@) is None ==> after.stage is Over && (
            after.outcome matches Some(Err(_)))
            &&& after.parsed == round.parsed
        }),
{
    lemma_granted(round.link, message);
    let after = round.feed(message);
    assert forall|result: JsonModel, turn: JsonModel, id: Seq<char>|
        #[trigger] holds(message, "result"@, result) && #[trigger] holds(
            result,
            "turn"@,
            turn,
        ) && #[trigger] reads(turn, "id"@, id) implies after.stage is Turn && after.turn_id == id
        && after.outcome == round.outcome by {
        lemma_reads(message, "result"@);
        lemma_reads(result, "turn"@);
        lemma_reads(turn, "id"@);
    }
}

/// A message of a running turn is passed on as a line, and what it says is taken in; it ends
/// the round exactly where it says that this turn has ended. The round has then succeeded
/// exactly where the turn's status is completed, it was not stopped, and the error that the
/// turn has is the round's.
pub proof fn message_of_a_turn_is_passed_on(round: RemoteRoundModel, message: JsonModel)
    requires
        round.stage is Turn,
        quiet(round.link),
        round.outcome is None,
    ensures
        ({
            let after = round.feed(message);
            let ends = completed_turn(message) is Some && completed_turn(message)->Some_0.turn_id
                == round.turn_id;
            let told = round.parsed.ingest(message);
            &&& after.link.actions.len() > round.link.actions.len()
            &&& after.link.actions[round.link.actions.len() as int] == (ActionModel::Line {
                line: json_text(message),
            })
            &&& told.1 matches Some(id) ==> after.link.actions.last() == (
            ActionModel::ThreadStarted { thread_id: id })
            &&& !ends ==> after.stage is Turn && after.outcome is None && after.parsed == told.0
                && after.stderr_lines == round.stderr_lines
            &&& ends ==> {
                let turn = completed_turn(message)->Some_0;
                &&& after.stage is Over
                &&& after.outcome matches Some(Ok(done))
                &&& done.success <==> turn.status == "completed"@
                &&& done.status_label == turn.status
                &&& !done.stopped
                &&& done.parsed.thread_id == told.0.thread_id && done.parsed.final_message
                    == told.0.final_message
                &&& turn.error_message matches Some(e) ==> done.parsed.error_message == Some(e)
                    && done.stderr_lines == round.stderr_lines.push(e)
                &&& turn.error_message is None ==> done.parsed.error_message
                    == told.0.error_message && done.stderr_lines == round.stderr_lines
            }
            &&& after.turn_id == round.turn_id && after.thread_id == round.thread_id
        }),
{
    let next = RemoteRoundModel { link: round.link.receive(message), ..round };
    assert(next.link.pending[0] == message);
    assert(next.link.pending.skip(1) =~= Seq::empty());
    reveal_with_fuel(RemoteRoundModel::run_turn, 2);
}

/// A running turn is stopped by asking the server to interrupt this turn of this thread;
/// whatever the answer is, or if the connection fails, the round is over then, stopped and
/// without success. A round whose turn does not run is left as it is.
pub proof fn stopped_turn_is_interrupted(
    round: RemoteRoundModel,
    message: JsonModel,
    e: Seq<char>,
)
    requires
        quiet(round.link),
        round.outcome is None,
        round.link.last_request < u64::MAX,
    ensures
        !(round.stage is Turn) ==> round.stop() == round,
        round.stage is Turn ==> {
            let asked = round.stop();
            &&& asked.stage is Interrupt && asked.outcome is None
            &&& exists|params: JsonModel| #[trigger] sends(
                asked.link.actions.last(),
                asked.link.last_request,
                "turn/interrupt"@,
                params,
            ) && reads(params, "threadId"@, round.thread_id) && reads(
                params,
                "turnId"@,
                round.turn_id,
            )
            &&& grants(asked.link, message) ==> asked.feed(message).stage is Over && (asked.feed(
                message,
            ).outcome matches Some(Ok(done)) && done.stopped && !done.success)
            &&& asked.fail(e).outcome matches Some(Ok(done)) && done.stopped && !done.success
        },
{
    broadcast use pushed_field;

    if round.stage is Turn {
        let params = object(
            no_fields().push(("threadId"@, JsonModel::Text(round.thread_id))).push(
                ("turnId"@, JsonModel::Text(round.turn_id)),
            ),
        );
        reveal_strlit("threadId");
        reveal_strlit("turnId");
        assert("threadId"@.len() != "turnId"@.len());
        request_is_sent(round.link, "turn/interrupt"@, params);
        let link = round.link.request("turn/interrupt"@, params);
        lemma_quiet_waits(link);
        let asked = round.stop();
        assert(asked.link == link);
        assert(sends(link.actions.last(), link.last_request, "turn/interrupt"@, params));
        if grants(asked.link, message) {
            lemma_granted(asked.link, message);
        }
    }
}

/// A connection that fails breaks a round off with that error, unless it is over.
pub proof fn failed_connection_breaks_the_round(round: RemoteRoundModel, e: Seq<char>)
    requires
        !(round.stage is Over),
        !(round.stage is Interrupt),
    ensures
        round.fail(e).stage is Over,
        round.fail(e).outcome == Some(Err::<crate::remote::FinishedModel, Seq<char>>(e)),
{
}

/// A bootstrap says hello, starts a thread in the agent's directory with the agent's
/// instructions, and starts the turn on the thread that it is given, with its prompt and its
/// schema.
pub proof fn bootstrap_goes_its_way(
    agent: Seq<char>,
    cwd: Seq<char>,
    instructions: Option<Seq<char>>,
    prompt: Seq<char>,
    schema: Option<JsonModel>,
    version: Seq<char>,
    hello_answer: JsonModel,
    thread_answer: JsonModel,
    result: JsonModel,
    thread: JsonModel,
    thread_id: Seq<char>,
    now: Timestamp,
)
    requires
        holds(thread_answer, "result"@, result),
        holds(result, "thread"@, thread),
        reads(thread, "id"@, thread_id),
    ensures
        ({
            let begun = BootstrapModel::begin(agent, cwd, instructions, prompt, schema, version);
            let greeted = begun.feed(hello_answer, now);
            let started = greeted.feed(thread_answer, now);
            &&& begun.stage is Initialize && begun.outcome is None
            &&& exists|params: JsonModel| #[trigger] sends(
                begun.link.actions[0],
                1,
                "initialize"@,
                params,
            )
            &&& grants(begun.link, hello_answer) ==> {
                &&& greeted.stage is Thread && greeted.outcome is None
                &&& greeted.link.actions.len() == 3
                &&& exists|params: JsonModel| #[trigger] sends(
                    greeted.link.actions[2],
                    2,
                    "thread/start"@,
                    params,
                ) && reads(params, "cwd"@, cwd) && (instructions matches Some(s) ==> reads(
                    params,
                    "developerInstructions"@,
                    s,
                ))
                &&& grants(greeted.link, thread_answer) ==> {
                    &&& started.stage is StartTurn && started.outcome is None
                    &&& started.parsed.thread_id == Some(thread_id)
                    &&& started.link.actions.len() == 4
                    &&& exists|params: JsonModel| #[trigger] sends(
                        started.link.actions[3],
                        3,
                        "turn/start"@,
                        params,
                    ) && asks_for_turn(params, thread_id, prompt, schema) && reads(
                        params,
                        "cwd"@,
                        cwd,
                    )
                }
            }
        }),
{
    let begun = BootstrapModel::begin(agent, cwd, instructions, prompt, schema, version);
    let fresh = LinkModel::fresh();
    let said = hello("agenttool_managed_bootstrap"@, "AgentTool Managed Bootstrap"@, version);
    request_is_sent(fresh, "initialize"@, said);
    assert(sends(begun.link.actions[0], 1, "initialize"@, said));
    if grants(begun.link, hello_answer) {
        lemma_granted(begun.link, hello_answer);
        let r = begun.link.receive(hello_answer).wait();
        let noted = r.0.notify("initialized"@);
        let params = begun.thread_params();
        bootstrap_asks_for_its_turn(begun, thread_id);
        request_is_sent(noted, "thread/start"@, params);
        let asked = noted.request("thread/start"@, params);
        lemma_quiet_waits(asked);
        let greeted = begun.feed(hello_answer, now);
        assert(greeted.link == asked);
        assert(sends(greeted.link.actions[2], 2, "thread/start"@, params));
        if grants(greeted.link, thread_answer) {
            lemma_granted(greeted.link, thread_answer);
            lemma_reads(thread_answer, "result"@);
            lemma_reads(result, "thread"@);
            lemma_reads(thread, "id"@);
            let r2 = greeted.link.receive(thread_answer).wait();
            let turn = greeted.turn_params(thread_id);
            bootstrap_asks_for_its_turn(greeted, thread_id);
            request_is_sent(r2.0, "turn/start"@, turn);
            let asked2 = r2.0.request("turn/start"@, turn);
            lemma_quiet_waits(asked2);
            let started = greeted.feed(thread_answer, now);
            assert(started.link == asked2);
            assert(sends(started.link.actions[3], 3, "turn/start"@, turn));
        }
    }
}

/// A bootstrap whose turn has ended is answered: with its agent, the thread that it was
/// given, what was said last and the time, where the turn's status is completed; and
/// otherwise with the error that the turn has.
pub proof fn ended_bootstrap_is_answered(b: BootstrapModel, message: JsonModel, now: Timestamp)
    requires
        b.stage is Turn,
        quiet(b.link),
        b.outcome is None,
    ensures
        ({
            let after = b.feed(message, now);
            let ends = completed_turn(message) is Some && completed_turn(message)->Some_0.turn_id
                == b.turn_id;
            let told = b.parsed.ingest(message).0;
            &&& !ends ==> after.stage is Turn && after.outcome is None && after.parsed == told
            &&& ends ==> {
                let turn = completed_turn(message)->Some_0;
                &&& after.stage is Over
                &&& after.outcome matches Some(done)
                &&& done is Ok <==> turn.status == "completed"@ && told.thread_id is Some
                &&& done matches Ok(round) ==> {
                    &&& round.agent == b.agent_name
                    &&& told.thread_id == Some(round.thread_id)
                    &&& told.final_message matches Some(s) ==> round.final_message == s
                    &&& round.completed_at == now
                }
                &&& (turn.status != "completed"@ && turn.error_message is Some) ==> done == Err::<
                    crate::models::RoundModel,
                    Seq<char>,
                >(turn.error_message->Some_0)
                &&& (turn.status != "completed"@ && turn.error_message is None
                    && told.error_message is Some) ==> done == Err::<
                    crate::models::RoundModel,
                    Seq<char>,
                >(told.error_message->Some_0)
            }
        }),
{
    let next = BootstrapModel { link: b.link.receive(message), ..b };
    assert(next.link.pending[0] == message);
    assert(next.link.pending.skip(1) =~= Seq::empty());
    reveal_with_fuel(BootstrapModel::run_turn, 2);
}

/// A remote round needs a server and a thread, and goes to those of its agent.
pub proof fn remote_round_goes_to_the_agents_server(agent: AgentModel)
    ensures
        remote_target(agent) is Ok <==> agent.app_server_url is Some && agent.thread_id is Some,
        remote_target(agent) matches Ok(target) ==> agent.app_server_url == Some(target.0)
            && agent.thread_id == Some(target.1),
{
}

/// A text that is JSON is a message, a ping is answered, and a connection that is closed, has
/// ended or broke is an error; nothing else matters.
pub proof fn frames_are_told_apart(frame: RemoteFrame)
    ensures
        frame matches RemoteFrame::Text { text } ==> (frame_step(frame) is Ok <==> read_json(
            text@,
        ) is Ok),
        frame matches RemoteFrame::Text { text } ==> (read_json(text@) matches Ok(v) ==> frame_step(
            frame,
        ) == Ok::<FrameModel, Seq<char>>(FrameModel::Message { message: v })),
        frame is Ping ==> frame_step(frame) == Ok::<FrameModel, Seq<char>>(FrameModel::Pong),
        frame is Other ==> frame_step(frame) == Ok::<FrameModel, Seq<char>>(FrameModel::Skip),
        frame is Close || frame is Ended || frame is Broken ==> frame_step(frame) is Err,
        frame matches RemoteFrame::Close { reason: Some(s) } ==> (s@.len() > 0 ==> frame_step(frame)
            == Err::<FrameModel, Seq<char>>(s@)),
{
}

/// The hello names this side: its name, its title and its version.
pub proof fn hello_names_this_side(name: Seq<char>, title: Seq<char>, version: Seq<char>)
    ensures
        exists|client: JsonModel| #[trigger]
            holds(hello(name, title, version), "clientInfo"@, client) && reads(
                client,
                "name"@,
                name,
            ) && reads(client, "title"@, title) && reads(client, "version"@, version),
{
    broadcast use pushed_field;

    reveal_strlit("clientInfo");
    reveal_strlit("capabilities");
    reveal_strlit("name");
    reveal_strlit("title");
    reveal_strlit("version");
    assert("clientInfo"@.len() != "capabilities"@.len());
    assert("name"@.len() != "title"@.len());
    assert("name"@.len() != "version"@.len());
    assert("title"@.len() != "version"@.len());
    let client = object(
        no_fields().push(("name"@, JsonModel::Text(name))).push(
            ("title"@, JsonModel::Text(title)),
        ).push(("version"@, JsonModel::Text(version))),
    );
    assert(holds(hello(name, title, version), "clientInfo"@, client));
}

} // verus!
