//! What the output of a round comes to: the thread, the answer and the error that it
//! speaks of last.

use vstd::prelude::*;

use crate::backend::{
    codex_args, completed_turn, error_text, first_part_text, item_text, last_line, launch_of,
    round_outcome, uses_remote, BackendLaunch, ParsedModel,
};
use crate::json::{read_json, JsonModel};
use crate::models::{AgentModel, AppServerOwner, BridgeConnectionState, SessionMode};
use crate::text::trimmed;
use crate::time::Timestamp;

verus! {

/// The value is an object whose field of this name holds the given value.
pub open spec fn holds(v: JsonModel, name: Seq<char>, held: JsonModel) -> bool {
    v matches JsonModel::Object(fields) && fields.dom().contains(name) && fields[name] == held
}

/// The value is an object whose field of this name is the text.
pub open spec fn reads(v: JsonModel, name: Seq<char>, s: Seq<char>) -> bool {
    holds(v, name, JsonModel::Text(s))
}

/// The value has no text in a field of this name.
pub open spec fn silent(v: JsonModel, name: Seq<char>) -> bool {
    forall|s: Seq<char>| !reads(v, name, s)
}

/// The part has a text of its own, or else a content that is a text.
pub open spec fn part_reads(part: JsonModel, s: Seq<char>) -> bool {
    reads(part, "text"@, s) || (silent(part, "text"@) && reads(part, "content"@, s))
}

/// Neither the part's text nor its content is a text.
pub open spec fn part_silent(part: JsonModel) -> bool {
    silent(part, "text"@) && silent(part, "content"@)
}

/// The first of the parts that reads anything reads this.
pub open spec fn parts_read(parts: Seq<JsonModel>, s: Seq<char>) -> bool {
    exists|k: int|
        0 <= k < parts.len() && part_reads(#[trigger] parts[k], s) && forall|j: int|
            0 <= j < k ==> part_silent(#[trigger] parts[j])
}

/// The item's content holds a part that reads something.
pub open spec fn content_reads(item: JsonModel) -> bool {
    exists|parts: Seq<JsonModel>, k: int|
        holds(item, "content"@, JsonModel::Array(parts)) && 0 <= k < parts.len() && !part_silent(
            #[trigger] parts[k],
        )
}

/// What an item reads: its text; without one, the first part of its content that reads
/// anything; without such a part, its output text.
pub open spec fn item_reads(item: JsonModel, s: Seq<char>) -> bool {
    ||| reads(item, "text"@, s)
    ||| silent(item, "text"@) && exists|parts: Seq<JsonModel>|
        #[trigger] holds(item, "content"@, JsonModel::Array(parts)) && parts_read(parts, s)
    ||| silent(item, "text"@) && !content_reads(item) && reads(item, "output_text"@, s)
}

/// The message is a notification of this method, and these are its parameters.
pub open spec fn notifies(v: JsonModel, method: Seq<char>, params: JsonModel) -> bool {
    reads(v, "method"@, method) && holds(v, "params"@, params)
}

/// The message is an event of this type.
pub open spec fn tells(v: JsonModel, kind: Seq<char>) -> bool {
    silent(v, "method"@) && reads(v, "type"@, kind)
}

/// The message says that an item was completed, and the item reads this.
pub open spec fn completes(v: JsonModel, s: Seq<char>) -> bool {
    ||| exists|params: JsonModel, item: JsonModel|
        #[trigger] notifies(v, "item/completed"@, params) && #[trigger] holds(
            params,
            "item"@,
            item,
        ) && item_reads(item, s)
    ||| tells(v, "item.completed"@) && exists|item: JsonModel|
        #[trigger] holds(v, "item"@, item) && item_reads(item, s)
}

/// The message says that this thread was started.
pub open spec fn starts(v: JsonModel, id: Seq<char>) -> bool {
    ||| exists|params: JsonModel, thread: JsonModel|
        #[trigger] notifies(v, "thread/started"@, params) && #[trigger] holds(
            params,
            "thread"@,
            thread,
        ) && reads(thread, "id"@, id)
    ||| tells(v, "thread.started"@) && reads(v, "thread_id"@, id)
}

/// The value's field of the first name has a message.
pub open spec fn inner_message(v: JsonModel, name: Seq<char>, s: Seq<char>) -> bool {
    exists|inner: JsonModel| #[trigger] holds(v, name, inner) && reads(inner, "message"@, s)
}

pub open spec fn no_inner_message(v: JsonModel, name: Seq<char>) -> bool {
    forall|s: Seq<char>| !inner_message(v, name, s)
}

/// The message of an error: its own, else that of its error, else that of its details.
pub open spec fn error_reads(v: JsonModel, s: Seq<char>) -> bool {
    ||| reads(v, "message"@, s)
    ||| silent(v, "message"@) && inner_message(v, "error"@, s)
    ||| silent(v, "message"@) && no_inner_message(v, "error"@) && inner_message(v, "details"@, s)
}

/// The message says that the round failed, and why.
pub open spec fn fails(v: JsonModel, s: Seq<char>) -> bool {
    ||| exists|params: JsonModel, turn: JsonModel|
        #[trigger] notifies(v, "turn/completed"@, params) && #[trigger] holds(
            params,
            "turn"@,
            turn,
        ) && inner_message(turn, "error"@, s)
    ||| (tells(v, "error"@) || tells(v, "turn.failed"@)) && error_reads(v, s)
}

/// A field read one way is read the other way.
pub proof fn lemma_reads(v: JsonModel, name: Seq<char>)
    ensures
        forall|s: Seq<char>| #[trigger] reads(v, name, s) <==> v.text_at(name) == Some(s),
        silent(v, name) <==> v.text_at(name) is None,
        forall|w: JsonModel| #[trigger] holds(v, name, w) <==> v.get(name) == Some(w),
{
    if let Some(s) = v.text_at(name) {
        assert(reads(v, name, s));
    }
}

proof fn lemma_part(part: JsonModel)
    ensures
        forall|s: Seq<char>| #[trigger]
            part_reads(part, s) <==> crate::backend::part_text(part) == Some(s),
        part_silent(part) <==> crate::backend::part_text(part) is None,
{
    lemma_reads(part, "text"@);
    lemma_reads(part, "content"@);
}

proof fn lemma_parts(parts: Seq<JsonModel>)
    ensures
        forall|s: Seq<char>| #[trigger]
            parts_read(parts, s) <==> first_part_text(parts) == Some(s),
        first_part_text(parts) is None <==> forall|k: int|
            0 <= k < parts.len() ==> part_silent(#[trigger] parts[k]),
    decreases parts.len(),
{
    if parts.len() > 0 {
        let rest = parts.skip(1);
        lemma_part(parts[0]);
        lemma_parts(rest);
        assert forall|s: Seq<char>| #[trigger] parts_read(parts, s) implies first_part_text(parts)
            == Some(s) by {
            let k = choose|k: int|
                0 <= k < parts.len() && part_reads(#[trigger] parts[k], s) && forall|j: int|
                    0 <= j < k ==> part_silent(#[trigger] parts[j]);
            if k > 0 {
                assert(part_silent(parts[0]));
                assert(rest[k - 1] == parts[k]);
                assert forall|j: int| 0 <= j < k - 1 implies part_silent(#[trigger] rest[j]) by {
                    assert(rest[j] == parts[j + 1]);
                }
                assert(parts_read(rest, s));
            }
        }
        assert forall|s: Seq<char>| first_part_text(parts) == Some(s) implies #[trigger] parts_read(
            parts,
            s,
        ) by {
            if part_reads(parts[0], s) {
                assert(parts_read(parts, s));
            } else {
                assert(parts_read(rest, s));
                let k = choose|k: int|
                    0 <= k < rest.len() && part_reads(#[trigger] rest[k], s) && forall|j: int|
                        0 <= j < k ==> part_silent(#[trigger] rest[j]);
                assert(rest[k] == parts[k + 1]);
                assert forall|j: int| 0 <= j < k + 1 implies part_silent(#[trigger] parts[j]) by {
                    if j > 0 {
                        assert(rest[j - 1] == parts[j]);
                    }
                }
            }
        }
        if first_part_text(parts) is None {
            assert forall|k: int| 0 <= k < parts.len() implies part_silent(#[trigger] parts[k]) by {
                if k > 0 {
                    assert(rest[k - 1] == parts[k]);
                }
            }
        }
        if forall|k: int| 0 <= k < parts.len() ==> part_silent(#[trigger] parts[k]) {
            assert(part_silent(parts[0]));
            assert forall|k: int| 0 <= k < rest.len() implies part_silent(#[trigger] rest[k]) by {
                assert(rest[k] == parts[k + 1]);
            }
        }
    }
}

proof fn lemma_item(item: JsonModel)
    ensures
        forall|s: Seq<char>| #[trigger] item_reads(item, s) <==> item_text(item) == Some(s),
{
    lemma_reads(item, "text"@);
    lemma_reads(item, "content"@);
    lemma_reads(item, "output_text"@);
    match item.get("content"@) {
        Some(JsonModel::Array(parts)) => {
            lemma_parts(parts);
            assert(holds(item, "content"@, JsonModel::Array(parts)));
            if first_part_text(parts) is Some {
                assert(parts_read(parts, first_part_text(parts)->Some_0));
            }
            assert(content_reads(item) <==> first_part_text(parts) is Some);
        },
        _ => {
            assert(!content_reads(item));
        },
    }
    assert forall|s: Seq<char>| #[trigger] item_reads(item, s) implies item_text(item) == Some(
        s,
    ) by {}
    assert forall|s: Seq<char>| item_text(item) == Some(s) implies #[trigger] item_reads(
        item,
        s,
    ) by {}
}

proof fn lemma_inner(v: JsonModel, name: Seq<char>)
    ensures
        forall|s: Seq<char>| #[trigger]
            inner_message(v, name, s) <==> crate::backend::text_at2(v, name, "message"@) == Some(s),
        no_inner_message(v, name) <==> crate::backend::text_at2(v, name, "message"@) is None,
{
    lemma_reads(v, name);
    if let Some(inner) = v.get(name) {
        lemma_reads(inner, "message"@);
        assert(holds(v, name, inner));
    }
    if let Some(s) = crate::backend::text_at2(v, name, "message"@) {
        assert(inner_message(v, name, s));
    }
}

proof fn lemma_error(v: JsonModel)
    ensures
        forall|s: Seq<char>| #[trigger] error_reads(v, s) <==> error_text(v) == Some(s),
{
    lemma_reads(v, "message"@);
    lemma_inner(v, "error"@);
    lemma_inner(v, "details"@);
}

proof fn lemma_kinds()
    ensures
        "thread/started"@ != "item/completed"@,
        "thread/started"@ != "turn/completed"@,
        "item/completed"@ != "turn/completed"@,
        "thread.started"@ != "error"@,
        "thread.started"@ != "turn.failed"@,
        "thread.started"@ != "item.completed"@,
        "item.completed"@ != "error"@,
        "item.completed"@ != "turn.failed"@,
{
    reveal_strlit("thread/started");
    reveal_strlit("item/completed");
    reveal_strlit("turn/completed");
    reveal_strlit("thread.started");
    reveal_strlit("item.completed");
    reveal_strlit("error");
    reveal_strlit("turn.failed");
    assert("thread/started"@[0] != "item/completed"@[0]);
    assert("thread/started"@[1] != "turn/completed"@[1]);
    assert("item/completed"@[0] != "turn/completed"@[0]);
    assert("thread.started"@[0] != "error"@[0]);
    assert("thread.started"@[1] != "turn.failed"@[1]);
    assert("thread.started"@[0] != "item.completed"@[0]);
    assert("item.completed"@[0] != "error"@[0]);
    assert("item.completed"@[0] != "turn.failed"@[0]);
}

/// After a message that says that an item was completed, the answer is what that item
/// reads, whatever was known before; any other message leaves the answer as it was.
pub proof fn completed_item_is_the_answer(known: ParsedModel, v: JsonModel)
    ensures
        forall|s: Seq<char>| #[trigger]
            completes(v, s) ==> known.ingest(v).0.final_message == Some(s),
        (forall|s: Seq<char>| !completes(v, s)) ==> known.ingest(v).0.final_message
            == known.final_message,
{
    lemma_kinds();
    lemma_reads(v, "method"@);
    lemma_reads(v, "params"@);
    lemma_reads(v, "type"@);
    lemma_reads(v, "item"@);
    if let Some(params) = v.get("params"@) {
        lemma_reads(params, "item"@);
        if let Some(item) = params.get("item"@) {
            lemma_item(item);
            if v.text_at("method"@) == Some("item/completed"@) && item_text(item) is Some {
                assert(notifies(v, "item/completed"@, params));
                assert(holds(params, "item"@, item));
                assert(item_reads(item, item_text(item)->Some_0));
                assert(completes(v, item_text(item)->Some_0));
            }
        }
    }
    if let Some(item) = v.get("item"@) {
        lemma_item(item);
        if tells(v, "item.completed"@) && item_text(item) is Some {
            assert(holds(v, "item"@, item));
            assert(completes(v, item_text(item)->Some_0));
        }
    }
}

/// After a message that says that a thread was started, the thread is that one, and the
/// caller is told of it; any other message leaves the thread as it was and tells of none.
pub proof fn started_thread_is_the_thread(known: ParsedModel, v: JsonModel)
    ensures
        forall|id: Seq<char>| #[trigger]
            starts(v, id) ==> known.ingest(v).0.thread_id == Some(id) && known.ingest(v).1 == Some(
                id,
            ),
        (forall|id: Seq<char>| !starts(v, id)) ==> known.ingest(v).0.thread_id == known.thread_id
            && known.ingest(v).1 is None,
{
    lemma_kinds();
    lemma_reads(v, "method"@);
    lemma_reads(v, "params"@);
    lemma_reads(v, "type"@);
    lemma_reads(v, "thread_id"@);
    if let Some(params) = v.get("params"@) {
        lemma_reads(params, "thread"@);
        if let Some(thread) = params.get("thread"@) {
            lemma_reads(thread, "id"@);
            if v.text_at("method"@) == Some("thread/started"@) && thread.text_at("id"@) is Some {
                assert(notifies(v, "thread/started"@, params));
                assert(holds(params, "thread"@, thread));
                assert(starts(v, thread.text_at("id"@)->Some_0));
            }
        }
    }
    if tells(v, "thread.started"@) && v.text_at("thread_id"@) is Some {
        assert(starts(v, v.text_at("thread_id"@)->Some_0));
    }
}

/// After a message that says why the round failed, that is the error; any other message
/// leaves the error as it was.
pub proof fn told_failure_is_the_error(known: ParsedModel, v: JsonModel)
    ensures
        forall|s: Seq<char>| #[trigger]
            fails(v, s) ==> known.ingest(v).0.error_message == Some(s),
        (forall|s: Seq<char>| !fails(v, s)) ==> known.ingest(v).0.error_message
            == known.error_message,
{
    lemma_kinds();
    lemma_reads(v, "method"@);
    lemma_reads(v, "params"@);
    lemma_reads(v, "type"@);
    lemma_error(v);
    if let Some(params) = v.get("params"@) {
        lemma_reads(params, "turn"@);
        if let Some(turn) = params.get("turn"@) {
            lemma_inner(turn, "error"@);
            if v.text_at("method"@) == Some("turn/completed"@) {
                assert(notifies(v, "turn/completed"@, params));
                assert(holds(params, "turn"@, turn));
                if let Some(s) = crate::backend::text_at2(turn, "error"@, "message"@) {
                    assert(inner_message(turn, "error"@, s));
                    assert(fails(v, s));
                }
            }
        }
    }
    if tells(v, "error"@) || tells(v, "turn.failed"@) {
        if let Some(s) = error_text(v) {
            assert(error_reads(v, s));
            assert(fails(v, s));
        }
    }
}

/// What is known after the lines of output, one after another.
pub open spec fn after_lines(known: ParsedModel, lines: Seq<Seq<char>>) -> ParsedModel
    decreases lines.len(),
{
    if lines.len() == 0 {
        known
    } else {
        after_lines(known, lines.drop_last()).ingest_line(lines.last()).0
    }
}

/// The line says that an item was completed which reads this.
pub open spec fn line_completes(line: Seq<char>, s: Seq<char>) -> bool {
    read_json(line) matches Ok(v) && completes(v, s)
}

pub open spec fn line_starts(line: Seq<char>, id: Seq<char>) -> bool {
    read_json(line) matches Ok(v) && starts(v, id)
}

pub open spec fn line_fails(line: Seq<char>, s: Seq<char>) -> bool {
    read_json(line) matches Ok(v) && fails(v, s)
}

/// No line from the given one on says that an item was completed.
pub open spec fn none_completes(lines: Seq<Seq<char>>, from: int) -> bool {
    forall|j: int, s: Seq<char>|
        from <= j < lines.len() ==> !#[trigger] line_completes(lines[j], s)
}

pub open spec fn none_starts(lines: Seq<Seq<char>>, from: int) -> bool {
    forall|j: int, id: Seq<char>|
        from <= j < lines.len() ==> !#[trigger] line_starts(lines[j], id)
}

pub open spec fn none_fails(lines: Seq<Seq<char>>, from: int) -> bool {
    forall|j: int, s: Seq<char>|
        from <= j < lines.len() ==> !#[trigger] line_fails(lines[j], s)
}

proof fn lemma_line(known: ParsedModel, line: Seq<char>)
    ensures
        ({
            let after = known.ingest_line(line).0;
            &&& forall|s: Seq<char>| #[trigger]
                line_completes(line, s) ==> after.final_message == Some(s)
            &&& (forall|s: Seq<char>| !#[trigger] line_completes(line, s)) ==> after.final_message
                == known.final_message
            &&& forall|id: Seq<char>| #[trigger]
                line_starts(line, id) ==> after.thread_id == Some(id)
            &&& (forall|id: Seq<char>| !#[trigger] line_starts(line, id)) ==> after.thread_id
                == known.thread_id
            &&& forall|s: Seq<char>| #[trigger]
                line_fails(line, s) ==> after.error_message == Some(s)
            &&& (forall|s: Seq<char>| !#[trigger] line_fails(line, s)) ==> after.error_message
                == known.error_message
        }),
{
    if let Ok(v) = read_json(line) {
        completed_item_is_the_answer(known, v);
        started_thread_is_the_thread(known, v);
        told_failure_is_the_error(known, v);
        if exists|s: Seq<char>| completes(v, s) {
            let s = choose|s: Seq<char>| completes(v, s);
            assert(line_completes(line, s));
        }
        if exists|s: Seq<char>| starts(v, s) {
            let s = choose|s: Seq<char>| starts(v, s);
            assert(line_starts(line, s));
        }
        if exists|s: Seq<char>| fails(v, s) {
            let s = choose|s: Seq<char>| fails(v, s);
            assert(line_fails(line, s));
        }
    }
}

/// After any lines of output the answer is what the last completed item reads; where no
/// line completed one, it is what it was.
pub proof fn last_completed_item_stays(
    known: ParsedModel,
    lines: Seq<Seq<char>>,
    k: int,
    s: Seq<char>,
)
    ensures
        0 <= k < lines.len() && line_completes(lines[k], s) && none_completes(lines, k + 1)
            ==> after_lines(known, lines).final_message == Some(s),
        none_completes(lines, 0) ==> after_lines(known, lines).final_message
            == known.final_message,
    decreases lines.len(),
{
    if lines.len() > 0 {
        let rest = lines.drop_last();
        let last = lines.len() - 1;
        last_completed_item_stays(known, rest, k, s);
        lemma_line(after_lines(known, rest), lines.last());
        if none_completes(lines, k + 1) && 0 <= k < last {
            assert forall|j: int, s: Seq<char>| k + 1 <= j < rest.len() implies !#[trigger] line_completes(
                rest[j],
                s,
            ) by {
                assert(!line_completes(lines[j], s));
            }
            assert forall|t: Seq<char>| !#[trigger] line_completes(lines.last(), t) by {
                assert(!line_completes(lines[last], t));
            }
        }
        if none_completes(lines, 0) {
            assert forall|j: int, s: Seq<char>| 0 <= j < rest.len() implies !#[trigger] line_completes(
                rest[j],
                s,
            ) by {
                assert(!line_completes(lines[j], s));
            }
            assert forall|t: Seq<char>| !#[trigger] line_completes(lines.last(), t) by {
                assert(!line_completes(lines[last], t));
            }
        }
    }
}

/// After any lines of output the thread is the one that was started last; where no line
/// started one, it is what it was.
pub proof fn last_started_thread_stays(
    known: ParsedModel,
    lines: Seq<Seq<char>>,
    k: int,
    id: Seq<char>,
)
    ensures
        0 <= k < lines.len() && line_starts(lines[k], id) && none_starts(lines, k + 1)
            ==> after_lines(known, lines).thread_id == Some(id),
        none_starts(lines, 0) ==> after_lines(known, lines).thread_id == known.thread_id,
    decreases lines.len(),
{
    if lines.len() > 0 {
        let rest = lines.drop_last();
        let last = lines.len() - 1;
        last_started_thread_stays(known, rest, k, id);
        lemma_line(after_lines(known, rest), lines.last());
        if none_starts(lines, k + 1) && 0 <= k < last {
            assert forall|j: int, s: Seq<char>| k + 1 <= j < rest.len() implies !#[trigger] line_starts(
                rest[j],
                s,
            ) by {
                assert(!line_starts(lines[j], s));
            }
            assert forall|t: Seq<char>| !#[trigger] line_starts(lines.last(), t) by {
                assert(!line_starts(lines[last], t));
            }
        }
        if none_starts(lines, 0) {
            assert forall|j: int, s: Seq<char>| 0 <= j < rest.len() implies !#[trigger] line_starts(
                rest[j],
                s,
            ) by {
                assert(!line_starts(lines[j], s));
            }
            assert forall|t: Seq<char>| !#[trigger] line_starts(lines.last(), t) by {
                assert(!line_starts(lines[last], t));
            }
        }
    }
}

/// After any lines of output the error is the one that was told last; where no line told
/// one, it is what it was.
pub proof fn last_told_error_stays(
    known: ParsedModel,
    lines: Seq<Seq<char>>,
    k: int,
    s: Seq<char>,
)
    ensures
        0 <= k < lines.len() && line_fails(lines[k], s) && none_fails(lines, k + 1) ==> after_lines(
            known,
            lines,
        ).error_message == Some(s),
        none_fails(lines, 0) ==> after_lines(known, lines).error_message == known.error_message,
    decreases lines.len(),
{
    if lines.len() > 0 {
        let rest = lines.drop_last();
        let last = lines.len() - 1;
        last_told_error_stays(known, rest, k, s);
        lemma_line(after_lines(known, rest), lines.last());
        if none_fails(lines, k + 1) && 0 <= k < last {
            assert forall|j: int, s: Seq<char>| k + 1 <= j < rest.len() implies !#[trigger] line_fails(
                rest[j],
                s,
            ) by {
                assert(!line_fails(lines[j], s));
            }
            assert forall|t: Seq<char>| !#[trigger] line_fails(lines.last(), t) by {
                assert(!line_fails(lines[last], t));
            }
        }
        if none_fails(lines, 0) {
            assert forall|j: int, s: Seq<char>| 0 <= j < rest.len() implies !#[trigger] line_fails(
                rest[j],
                s,
            ) by {
                assert(!line_fails(lines[j], s));
            }
            assert forall|t: Seq<char>| !#[trigger] line_fails(lines.last(), t) by {
                assert(!line_fails(lines[last], t));
            }
        }
    }
}

/// A round that was not stopped and succeeded is answered with its agent, its thread, its
/// answer and its time; without a thread it is refused.
pub proof fn finished_round_is_answered(
    parsed: ParsedModel,
    stderr: Seq<Seq<char>>,
    label: Seq<char>,
    agent: Seq<char>,
    now: Timestamp,
)
    ensures
        ({
            let outcome = round_outcome(parsed, stderr, true, label, false, agent, now);
            &&& outcome is Ok <==> parsed.thread_id is Some
            &&& outcome matches Ok(round) ==> {
                &&& round.agent == agent
                &&& parsed.thread_id == Some(round.thread_id)
                &&& parsed.final_message matches Some(s) ==> round.final_message == s
                &&& parsed.final_message is None ==> round.final_message.len() == 0
                &&& round.completed_at == now
            }
        }),
{
    reveal_strlit("");
}

/// A round that was stopped is never a success, whatever its output said, and a round that
/// failed says why: the error that its output told, else the last line of its error output
/// that is not blank, else its status.
pub proof fn failed_round_says_why(
    parsed: ParsedModel,
    stderr: Seq<Seq<char>>,
    success: bool,
    label: Seq<char>,
    stopped: bool,
    agent: Seq<char>,
    now: Timestamp,
    k: int,
)
    requires
        stopped || !success,
    ensures
        ({
            let outcome = round_outcome(parsed, stderr, success, label, stopped, agent, now);
            let why = "codex round failed for agent "@ + agent + ": "@;
            let blank_after = forall|j: int|
                k < j < stderr.len() ==> trimmed(#[trigger] stderr[j]).len() == 0;
            &&& outcome is Err
            &&& stopped ==> outcome == Err::<crate::models::RoundModel, Seq<char>>(
                "codex session stop requested for agent "@ + agent,
            )
            &&& (!stopped && parsed.error_message is Some) ==> outcome->Err_0 == why
                + parsed.error_message->Some_0
            &&& (!stopped && parsed.error_message is None && 0 <= k < stderr.len() && trimmed(
                stderr[k],
            ).len() > 0 && blank_after) ==> outcome->Err_0 == why + stderr[k]
            &&& (!stopped && parsed.error_message is None && k == -1 && blank_after)
                ==> outcome->Err_0 == why + ("backend ended with status "@ + label)
        }),
{
    if -1 <= k && forall|j: int|
        k < j < stderr.len() ==> trimmed(#[trigger] stderr[j]).len() == 0 {
        lemma_last_line(stderr, k);
    }
}

proof fn lemma_last_line(lines: Seq<Seq<char>>, k: int)
    requires
        forall|j: int| k < j < lines.len() ==> trimmed(#[trigger] lines[j]).len() == 0,
        -1 <= k,
    ensures
        0 <= k < lines.len() && trimmed(lines[k]).len() > 0 ==> last_line(lines) == Some(lines[k]),
        k == -1 ==> last_line(lines) is None,
    decreases lines.len(),
{
    if lines.len() > 0 {
        let rest = lines.drop_last();
        if k < lines.len() - 1 {
            assert(trimmed(lines[lines.len() - 1]).len() == 0);
            assert forall|j: int| k < j < rest.len() implies trimmed(#[trigger] rest[j]).len()
                == 0 by {
                assert(rest[j] == lines[j]);
            }
            lemma_last_line(rest, k);
        }
    }
}

/// A turn that has ended is told apart by its number; it has the status and the error
/// that the message gives it.
pub proof fn ended_turn_is_told(v: JsonModel, params: JsonModel, turn: JsonModel, id: Seq<char>)
    requires
        notifies(v, "turn/completed"@, params),
        holds(params, "turn"@, turn),
        reads(turn, "id"@, id),
    ensures
        completed_turn(v) matches Some(t) && t.turn_id == id && (forall|s: Seq<char>| #[trigger]
            reads(turn, "status"@, s) ==> t.status == s) && (silent(turn, "status"@) ==> t.status
            == "unknown"@) && (forall|s: Seq<char>| #[trigger]
            inner_message(turn, "error"@, s) <==> t.error_message == Some(s)),
{
    lemma_reads(v, "method"@);
    lemma_reads(v, "params"@);
    lemma_reads(params, "turn"@);
    lemma_reads(turn, "id"@);
    lemma_reads(turn, "status"@);
    lemma_inner(turn, "error"@);
}

/// A message of another method, or without a turn that has a number, ends no turn.
pub proof fn other_message_ends_no_turn(v: JsonModel)
    requires
        !exists|params: JsonModel, turn: JsonModel, id: Seq<char>|
            #[trigger] notifies(v, "turn/completed"@, params) && #[trigger] holds(
                params,
                "turn"@,
                turn,
            ) && #[trigger] reads(turn, "id"@, id),
    ensures
        completed_turn(v) is None,
{
    lemma_reads(v, "method"@);
    lemma_reads(v, "params"@);
    if completed_turn(v) is Some {
        let params = v.get("params"@)->Some_0;
        lemma_reads(params, "turn"@);
        let turn = params.get("turn"@)->Some_0;
        lemma_reads(turn, "id"@);
        assert(notifies(v, "turn/completed"@, params));
        assert(holds(params, "turn"@, turn));
        assert(reads(turn, "id"@, turn.text_at("id"@)->Some_0));
    }
}

/// A round goes to an app server only where one is known, with a thread on it, and a
/// bridge is connected or the daemon runs the server; every other round is a process.
pub proof fn round_goes_where_the_thread_is(agent: AgentModel)
    ensures
        ({
            let goes = launch_of(SessionMode::Round, agent);
            &&& goes is Ok
            &&& agent.app_server_url is None || agent.thread_id is None ==> goes->Ok_0
                == BackendLaunch::Process
            &&& agent.bridge_state != BridgeConnectionState::Connected && agent.app_server_owner
                != Some(AppServerOwner::Daemon) ==> goes->Ok_0 == BackendLaunch::Process
            &&& agent.app_server_url is Some && agent.thread_id is Some && agent.bridge_state
                == BridgeConnectionState::Connected ==> goes->Ok_0 == BackendLaunch::Remote
            &&& agent.app_server_url is Some && agent.thread_id is Some && agent.app_server_owner
                == Some(AppServerOwner::Daemon) ==> goes->Ok_0 == BackendLaunch::Remote
        }),
        launch_of(SessionMode::Pty, agent) is Err,
        launch_of(SessionMode::AppServer, agent) is Err,
        uses_remote(agent) <==> launch_of(SessionMode::Round, agent)->Ok_0
            == BackendLaunch::Remote,
{
}

/// A round with no schema resumes the agent's thread, where it has one; any other starts
/// afresh in the agent's directory. A schema is handed on, and only where there is one.
pub proof fn command_resumes_the_thread(agent: AgentModel, schema: Option<Seq<char>>)
    ensures
        ({
            let args = codex_args(agent, schema);
            &&& agent.thread_id is Some && schema is None ==> args.len() == 10 && args[4]
                == "exec"@ && args[5] == "resume"@ && args[8] == agent.thread_id->Some_0
            &&& agent.thread_id is None || schema is Some ==> args.len() >= 10 && args[4]
                == "exec"@ && args[5] == "--json"@ && args[7] == "--cd"@ && args[8] == agent.cwd
            &&& args[9] == "-"@
            &&& args[1] == "never"@ && args[3] == "workspace-write"@
            &&& schema matches Some(path) ==> args.len() == 12 && args[10] == "--output-schema"@
                && args[11] == path
            &&& schema is None ==> args.len() == 10
        }),
{
}

} // verus!
