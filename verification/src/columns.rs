//! The columns of the stored records: each fact is stored in the column of its name and read
//! from there.

use vstd::prelude::*;

use crate::json::{json_text, read_json, JsonModel};
use crate::models::{
    AgentModel, DecisionModel, RuntimeEventModel, SessionModel, StreamModel, TaskModel,
};
use crate::storage::{
    agent_in, agent_row, decision_in, decision_row, runtime_event_in, runtime_event_row,
    session_in, session_row, stored_agent_state, stored_app_server_owner, stored_bootstrap_state,
    stored_bridge_mode, stored_bridge_state, stored_codex_session_status, stored_role,
    stored_session_mode, stored_task_state, stored_visible_pane_kind, stream_event_in,
    stream_event_row, string_list_in, task_in, task_row, AgentRowModel, DecisionRowModel,
    RuntimeEventRowModel, SessionRowModel, StreamRowModel, TaskRowModel,
};
use crate::time::{read_rfc3339, rfc3339, Timestamp};

verus! {

/// The column holds the instant, where there is one.
pub open spec fn holds_time(column: Option<Seq<char>>, t: Option<Timestamp>) -> bool {
    match t {
        Some(t) => column == Some(rfc3339(t)),
        None => column is None,
    }
}

/// The instant is the one that the column reads as, and there is none where it reads as none.
pub open spec fn reads_time(t: Option<Timestamp>, column: Option<Seq<char>>) -> bool {
    match column {
        Some(s) => t == read_rfc3339(s),
        None => t is None,
    }
}

/// The column holds the texts, as a JSON array in their order.
pub open spec fn holds_texts(column: Seq<char>, items: Seq<Seq<char>>) -> bool {
    exists|v: Seq<JsonModel>|
        column == #[trigger] json_text(JsonModel::Array(v)) && v.len() == items.len() && forall|
            i: int,
        |
            0 <= i < v.len() ==> #[trigger] v[i] == JsonModel::Text(items[i])
}

/// The texts are those of the JSON array that the column reads as.
pub open spec fn reads_texts(items: Seq<Seq<char>>, column: Seq<char>) -> bool {
    match read_json(column) {
        Ok(JsonModel::Array(v)) => if forall|i: int| 0 <= i < v.len() ==> #[trigger] v[i] is Text {
            items.len() == v.len() && forall|i: int|
                0 <= i < v.len() ==> #[trigger] v[i] == JsonModel::Text(items[i])
        } else {
            items.len() == 0
        },
        _ => items.len() == 0,
    }
}

proof fn lemma_holds_texts(items: Seq<Seq<char>>)
    ensures
        holds_texts(json_text(crate::json::json_texts(items)), items),
{
    let v = items.map_values(|s: Seq<char>| JsonModel::Text(s));
    assert(json_text(JsonModel::Array(v)) == json_text(crate::json::json_texts(items)));
}

proof fn lemma_reads_texts(column: Seq<char>)
    ensures
        reads_texts(string_list_in(column), column),
{
}

/// An agent is stored with each fact in the column of its name.
pub proof fn agent_is_stored(agent: AgentModel)
    ensures
        ({
            let row = agent_row(agent);
            &&& row.name == agent.name
            &&& row.role == agent.role.label()
            &&& row.repo_name == agent.repo_name
            &&& row.cwd == agent.cwd
            &&& row.prompt_path == agent.prompt_path
            &&& row.thread_id == agent.thread_id
            &&& row.app_server_url == agent.app_server_url
            &&& agent.app_server_owner is None <==> row.app_server_owner is None
            &&& agent.app_server_owner matches Some(v) ==> row.app_server_owner == Some(v.label())
            &&& holds_time(row.app_server_registered_at, agent.app_server_registered_at)
            &&& agent.visible_pane_pid is None <==> row.visible_pane_pid is None
            &&& agent.visible_pane_pid matches Some(v) ==> row.visible_pane_pid == Some(v as i64)
            &&& agent.visible_pane_kind is None <==> row.visible_pane_kind is None
            &&& agent.visible_pane_kind matches Some(v) ==> row.visible_pane_kind == Some(v.label())
            &&& holds_time(row.visible_pane_registered_at, agent.visible_pane_registered_at)
            &&& row.current_session_id == agent.current_session_id
            &&& row.state == agent.state.label()
            &&& row.bootstrap_state == agent.bootstrap_state.label()
            &&& row.bootstrap_summary == agent.bootstrap_summary
            &&& holds_time(row.bootstrap_completed_at, agent.bootstrap_completed_at)
            &&& row.current_task_id == agent.current_task_id
            &&& holds_time(row.last_output_at, agent.last_output_at)
            &&& holds_time(row.last_heartbeat_at, agent.last_heartbeat_at)
            &&& row.bridge_state == agent.bridge_state.label()
            &&& agent.bridge_mode is None <==> row.bridge_mode is None
            &&& agent.bridge_mode matches Some(v) ==> row.bridge_mode == Some(v.label())
            &&& row.bridge_session_id == agent.bridge_session_id
            &&& holds_time(row.bridge_connected_at, agent.bridge_connected_at)
            &&& holds_time(row.bridge_last_seen_at, agent.bridge_last_seen_at)
            &&& agent.bridge_last_delivery_id <= i64::MAX ==> row.bridge_last_delivery_id
                == agent.bridge_last_delivery_id
            &&& agent.bridge_last_delivery_id > i64::MAX ==> row.bridge_last_delivery_id == i64::MAX
            &&& agent.bridge_last_ack_delivery_id <= i64::MAX
                ==> row.bridge_last_ack_delivery_id == agent.bridge_last_ack_delivery_id
            &&& agent.bridge_last_ack_delivery_id > i64::MAX
                ==> row.bridge_last_ack_delivery_id == i64::MAX
            &&& row.bridge_pending_delivery_count == agent.bridge_pending_delivery_count as i64
        }),
{
}

/// An agent is read with each fact from the column of its name.
pub proof fn agent_is_read(row: AgentRowModel)
    ensures
        ({
            let kept = agent_in(row);
            &&& kept.name == row.name
            &&& kept.role == stored_role(row.role)
            &&& kept.repo_name == row.repo_name
            &&& kept.cwd == row.cwd
            &&& kept.prompt_path == row.prompt_path
            &&& kept.thread_id == row.thread_id
            &&& kept.app_server_url == row.app_server_url
            &&& kept.app_server_owner is None <==> row.app_server_owner is None
            &&& row.app_server_owner matches Some(s) ==> kept.app_server_owner
                == Some(stored_app_server_owner(s))
            &&& reads_time(kept.app_server_registered_at, row.app_server_registered_at)
            &&& row.visible_pane_pid matches Some(n) ==> (0 <= n <= u32::MAX
                ==> kept.visible_pane_pid == Some(n as u32))
            &&& row.visible_pane_pid is None ==> kept.visible_pane_pid is None
            &&& kept.visible_pane_kind is None <==> row.visible_pane_kind is None
            &&& row.visible_pane_kind matches Some(s) ==> kept.visible_pane_kind
                == Some(stored_visible_pane_kind(s))
            &&& reads_time(kept.visible_pane_registered_at, row.visible_pane_registered_at)
            &&& kept.current_session_id == row.current_session_id
            &&& kept.state == stored_agent_state(row.state)
            &&& kept.bootstrap_state == stored_bootstrap_state(row.bootstrap_state)
            &&& kept.bootstrap_summary == row.bootstrap_summary
            &&& reads_time(kept.bootstrap_completed_at, row.bootstrap_completed_at)
            &&& kept.current_task_id == row.current_task_id
            &&& reads_time(kept.last_output_at, row.last_output_at)
            &&& reads_time(kept.last_heartbeat_at, row.last_heartbeat_at)
            &&& kept.bridge_state == stored_bridge_state(row.bridge_state)
            &&& kept.bridge_mode is None <==> row.bridge_mode is None
            &&& row.bridge_mode matches Some(s) ==> kept.bridge_mode == Some(stored_bridge_mode(s))
            &&& kept.bridge_session_id == row.bridge_session_id
            &&& reads_time(kept.bridge_connected_at, row.bridge_connected_at)
            &&& reads_time(kept.bridge_last_seen_at, row.bridge_last_seen_at)
            &&& row.bridge_last_delivery_id >= 0 ==> kept.bridge_last_delivery_id
                == row.bridge_last_delivery_id
            &&& row.bridge_last_delivery_id < 0 ==> kept.bridge_last_delivery_id == 0
            &&& row.bridge_last_ack_delivery_id >= 0 ==> kept.bridge_last_ack_delivery_id
                == row.bridge_last_ack_delivery_id
            &&& row.bridge_last_ack_delivery_id < 0 ==> kept.bridge_last_ack_delivery_id == 0
            &&& 0 <= row.bridge_pending_delivery_count <= u32::MAX
                ==> kept.bridge_pending_delivery_count == row.bridge_pending_delivery_count
            &&& row.bridge_pending_delivery_count < 0 ==> kept.bridge_pending_delivery_count == 0
        }),
{
}

/// A task is stored with each fact in the column of its name.
pub proof fn task_is_stored(task: TaskModel)
    ensures
        ({
            let row = task_row(task);
            &&& row.task_id == task.task_id
            &&& row.from_agent == task.from_agent
            &&& row.to_agent == task.to_agent
            &&& row.title == task.title
            &&& row.summary == task.summary
            &&& row.effort == task.effort
            &&& holds_texts(row.read_scope, task.read_scope)
            &&& holds_texts(row.write_scope, task.write_scope)
            &&& holds_texts(row.acceptance, task.acceptance)
            &&& row.auto_resolve_by == task.auto_resolve_by
            &&& row.auto_resolve_summary == task.auto_resolve_summary
            &&& row.round_count == task.round_count as i64
            &&& row.latest_child_status == task.latest_child_status
            &&& row.latest_child_summary == task.latest_child_summary
            &&& row.latest_child_blocking == task.latest_child_blocking
            &&& row.latest_child_topic == task.latest_child_topic
            &&& row.latest_child_details == task.latest_child_details
            &&& row.latest_decision_id == task.latest_decision_id
            &&& row.latest_decision_summary == task.latest_decision_summary
            &&& row.latest_decision_status == task.latest_decision_status
            &&& row.latest_decision_issued_by == task.latest_decision_issued_by
            &&& holds_time(row.latest_decision_at, task.latest_decision_at)
            &&& row.state == task.state.label()
            &&& row.created_at == rfc3339(task.created_at)
            &&& row.updated_at == rfc3339(task.updated_at)
            &&& holds_time(row.closed_at, task.closed_at)
        }),
{
    lemma_holds_texts(task.read_scope);
    lemma_holds_texts(task.write_scope);
    lemma_holds_texts(task.acceptance);
}

/// A task is read with each fact from the column of its name; one whose
/// times cannot be read is refused.
pub proof fn task_is_read(row: TaskRowModel)
    ensures
        task_in(row) is Ok <==> read_rfc3339(row.created_at) is Some
            && read_rfc3339(row.updated_at) is Some,
        task_in(row) matches Ok(kept) ==> {
            &&& kept.task_id == row.task_id
            &&& kept.from_agent == row.from_agent
            &&& kept.to_agent == row.to_agent
            &&& kept.title == row.title
            &&& kept.summary == row.summary
            &&& kept.effort == row.effort
            &&& reads_texts(kept.read_scope, row.read_scope)
            &&& reads_texts(kept.write_scope, row.write_scope)
            &&& reads_texts(kept.acceptance, row.acceptance)
            &&& kept.auto_resolve_by == row.auto_resolve_by
            &&& kept.auto_resolve_summary == row.auto_resolve_summary
            &&& 0 <= row.round_count <= u32::MAX ==> kept.round_count == row.round_count
            &&& row.round_count < 0 ==> kept.round_count == 0
            &&& kept.latest_child_status == row.latest_child_status
            &&& kept.latest_child_summary == row.latest_child_summary
            &&& kept.latest_child_blocking == row.latest_child_blocking
            &&& kept.latest_child_topic == row.latest_child_topic
            &&& kept.latest_child_details == row.latest_child_details
            &&& kept.latest_decision_id == row.latest_decision_id
            &&& kept.latest_decision_summary == row.latest_decision_summary
            &&& kept.latest_decision_status == row.latest_decision_status
            &&& kept.latest_decision_issued_by == row.latest_decision_issued_by
            &&& reads_time(kept.latest_decision_at, row.latest_decision_at)
            &&& kept.state == stored_task_state(row.state)
            &&& reads_time(kept.closed_at, row.closed_at)
            &&& read_rfc3339(row.created_at) == Some(kept.created_at)
            &&& read_rfc3339(row.updated_at) == Some(kept.updated_at)
        },
{
    lemma_reads_texts(row.read_scope);
    lemma_reads_texts(row.write_scope);
    lemma_reads_texts(row.acceptance);
}

/// A session is stored with each fact in the column of its name.
pub proof fn session_is_stored(session: SessionModel)
    ensures
        ({
            let row = session_row(session);
            &&& row.session_id == session.session_id
            &&& row.agent_name == session.agent_name
            &&& row.session_mode == session.session_mode.label()
            &&& session.pid is None <==> row.pid is None
            &&& session.pid matches Some(v) ==> row.pid == Some(v as i64)
            &&& row.thread_id == session.thread_id
            &&& row.status == session.status.label()
            &&& row.started_at == rfc3339(session.started_at)
            &&& holds_time(row.ended_at, session.ended_at)
            &&& holds_time(row.last_output_at, session.last_output_at)
        }),
{
}

/// A session is read with each fact from the column of its name; one whose
/// times cannot be read is refused.
pub proof fn session_is_read(row: SessionRowModel)
    ensures
        session_in(row) is Ok <==> read_rfc3339(row.started_at) is Some,
        session_in(row) matches Ok(kept) ==> {
            &&& kept.session_id == row.session_id
            &&& kept.agent_name == row.agent_name
            &&& kept.session_mode == stored_session_mode(row.session_mode)
            &&& row.pid matches Some(n) ==> (0 <= n <= u32::MAX ==> kept.pid == Some(n as u32))
            &&& row.pid is None ==> kept.pid is None
            &&& kept.thread_id == row.thread_id
            &&& kept.status == stored_codex_session_status(row.status)
            &&& reads_time(kept.ended_at, row.ended_at)
            &&& reads_time(kept.last_output_at, row.last_output_at)
            &&& read_rfc3339(row.started_at) == Some(kept.started_at)
        },
{
}

/// A decision is stored with each fact in the column of its name.
pub proof fn decision_is_stored(decision: DecisionModel)
    ensures
        ({
            let row = decision_row(decision);
            &&& row.decision_id == decision.decision_id
            &&& row.task_id == decision.task_id
            &&& row.issued_by == decision.issued_by
            &&& row.target_agent == decision.target_agent
            &&& row.summary == decision.summary
            &&& row.status == decision.status
            &&& row.created_at == rfc3339(decision.created_at)
            &&& holds_time(row.acknowledged_at, decision.acknowledged_at)
        }),
{
}

/// A decision is read with each fact from the column of its name; one whose
/// times cannot be read is refused.
pub proof fn decision_is_read(row: DecisionRowModel)
    ensures
        decision_in(row) is Ok <==> read_rfc3339(row.created_at) is Some,
        decision_in(row) matches Ok(kept) ==> {
            &&& kept.decision_id == row.decision_id
            &&& kept.task_id == row.task_id
            &&& kept.issued_by == row.issued_by
            &&& kept.target_agent == row.target_agent
            &&& kept.summary == row.summary
            &&& kept.status == row.status
            &&& reads_time(kept.acknowledged_at, row.acknowledged_at)
            &&& read_rfc3339(row.created_at) == Some(kept.created_at)
        },
{
}

/// A line of output is stored with each fact in the column of its name.
pub proof fn stream_event_is_stored(stream_event: StreamModel)
    ensures
        ({
            let row = stream_event_row(stream_event);
            &&& row.session_id == stream_event.session_id
            &&& row.agent == stream_event.agent
            &&& row.stream == stream_event.stream
            &&& row.content == stream_event.content
            &&& row.at == rfc3339(stream_event.at)
        }),
{
}

/// A line of output is read with each fact from the column of its name; one whose
/// times cannot be read is refused.
pub proof fn stream_event_is_read(row: StreamRowModel)
    ensures
        stream_event_in(row) is Ok <==> read_rfc3339(row.at) is Some,
        stream_event_in(row) matches Ok(kept) ==> {
            &&& kept.session_id == row.session_id
            &&& kept.agent == row.agent
            &&& kept.stream == row.stream
            &&& kept.content == row.content
            &&& read_rfc3339(row.at) == Some(kept.at)
        },
{
}

/// An entry of the ledger is stored with each fact in the column of its name.
pub proof fn runtime_event_is_stored(runtime_event: RuntimeEventModel)
    ensures
        ({
            let row = runtime_event_row(runtime_event);
            &&& row.id == runtime_event.id
            &&& row.scope == runtime_event.scope
            &&& row.scope_id == runtime_event.scope_id
            &&& row.agent_name == runtime_event.agent_name
            &&& row.task_id == runtime_event.task_id
            &&& row.session_id == runtime_event.session_id
            &&& row.actor_name == runtime_event.actor_name
            &&& row.event_type == runtime_event.event_type
            &&& row.summary == runtime_event.summary
            &&& row.reason == runtime_event.reason
            &&& row.payload_json == runtime_event.payload_json
            &&& row.created_at == rfc3339(runtime_event.created_at)
        }),
{
}

/// An entry of the ledger is read with each fact from the column of its name; one whose
/// times cannot be read is refused.
pub proof fn runtime_event_is_read(row: RuntimeEventRowModel)
    ensures
        runtime_event_in(row) is Ok <==> read_rfc3339(row.created_at) is Some,
        runtime_event_in(row) matches Ok(kept) ==> {
            &&& kept.id == row.id
            &&& kept.scope == row.scope
            &&& kept.scope_id == row.scope_id
            &&& kept.agent_name == row.agent_name
            &&& kept.task_id == row.task_id
            &&& kept.session_id == row.session_id
            &&& kept.actor_name == row.actor_name
            &&& kept.event_type == row.event_type
            &&& kept.summary == row.summary
            &&& kept.reason == row.reason
            &&& kept.payload_json == row.payload_json
            &&& read_rfc3339(row.created_at) == Some(kept.created_at)
        },
{
}

} // verus!
