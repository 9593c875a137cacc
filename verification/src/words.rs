//! The words for states, kinds and modes: how each is stored, sent and shown; and numbers as
//! they are written and read.

use vstd::prelude::*;

use crate::backend::BackendStream;
use crate::config::{is_digit, number_in, seconds_or, unsigned_part, value_of};
use crate::dispatch::TraceKind;
use crate::models::{
    AgentBootstrapState, AgentContextSourceKind, AgentRole, AgentSessionState, AppServerOwner,
    BridgeConnectionState, BridgeDeliveryKind, BridgeMode, CodexSessionStatus, SessionMode,
    TaskRoundStatus, TaskState, VisiblePaneKind,
};
use crate::host::round_status_shown;
use crate::reports::round_status_named;
use crate::storage::{
    read_number, read_pid, read_small, stored_agent_state, stored_app_server_owner,
    stored_bootstrap_state, stored_bridge_mode, stored_bridge_state, stored_codex_session_status,
    stored_number, stored_pid, stored_role, stored_session_mode, stored_task_state,
    stored_visible_pane_kind,
};
use crate::tasks::{shown_items, shown_states};
use crate::text::{
    begins_with, decimal, digit, finishes_with, holds_part, is_space, joined, lower, lower_char,
    part_at,
};
use crate::watch::{
    agent_state_name, app_server_owner_name, bootstrap_state_name, session_mode_name,
    session_status_name, shortened, task_state_name,
};

verus! {

/// The words for a role.
pub proof fn words_for_agent_role(v: AgentRole)
    ensures
        v == AgentRole::Main ==> v.label() == "main"@ && v.shown() == "Main"@,
        v == AgentRole::Child ==> v.label() == "child"@ && v.shown() == "Child"@,
{
}

/// The words for the state of an agent.
pub proof fn words_for_agent_session_state(v: AgentSessionState)
    ensures
        v == AgentSessionState::Idle ==> v.label() == "idle"@ && v.shown() == "Idle"@
            && agent_state_name(v) == "空闲"@,
        v == AgentSessionState::Busy ==> v.label() == "busy"@ && v.shown() == "Busy"@
            && agent_state_name(v) == "运行中"@,
        v == AgentSessionState::Blocked ==> v.label() == "blocked"@ && v.shown() == "Blocked"@
            && agent_state_name(v) == "阻塞"@,
        v == AgentSessionState::Offline ==> v.label() == "offline"@ && v.shown() == "Offline"@
            && agent_state_name(v) == "离线"@,
{
}

/// The words for the bootstrap of an agent.
pub proof fn words_for_agent_bootstrap_state(v: AgentBootstrapState)
    ensures
        v == AgentBootstrapState::AwaitingInit ==> v.label() == "awaiting_init"@ && v.shown()
            == "AwaitingInit"@ && bootstrap_state_name(v) == "待初始化"@,
        v == AgentBootstrapState::Ready ==> v.label() == "ready"@ && v.shown() == "Ready"@
            && bootstrap_state_name(v) == "已就绪"@,
{
}

/// The words for a source of context.
pub proof fn words_for_agent_context_source_kind(v: AgentContextSourceKind)
    ensures
        v == AgentContextSourceKind::PromptContract ==> v.label() == "prompt_contract"@,
        v == AgentContextSourceKind::WorkingNotes ==> v.label() == "working_notes"@,
{
}

/// The words for the state of a task.
pub proof fn words_for_task_state(v: TaskState)
    ensures
        v == TaskState::Pending ==> v.label() == "pending"@ && v.shown() == "Pending"@
            && task_state_name(v) == "待处理"@,
        v == TaskState::Accepted ==> v.label() == "accepted"@ && v.shown() == "Accepted"@
            && task_state_name(v) == "已接单"@,
        v == TaskState::Running ==> v.label() == "running"@ && v.shown() == "Running"@
            && task_state_name(v) == "运行中"@,
        v == TaskState::Completed ==> v.label() == "completed"@ && v.shown() == "Completed"@
            && task_state_name(v) == "已完成"@,
        v == TaskState::Reported ==> v.label() == "reported"@ && v.shown() == "Reported"@
            && task_state_name(v) == "已反馈"@,
        v == TaskState::Analyzed ==> v.label() == "analyzed"@ && v.shown() == "Analyzed"@
            && task_state_name(v) == "已分析"@,
        v == TaskState::DecisionSent ==> v.label() == "decision_sent"@ && v.shown()
            == "DecisionSent"@ && task_state_name(v) == "已发决策"@,
        v == TaskState::Closed ==> v.label() == "closed"@ && v.shown() == "Closed"@
            && task_state_name(v) == "已关闭"@,
        v == TaskState::BlockedWaitingDecision ==> v.label() == "blocked_waiting_decision"@
            && v.shown() == "BlockedWaitingDecision"@ && task_state_name(v) == "等主决策"@,
        v == TaskState::Cancelled ==> v.label() == "cancelled"@ && v.shown() == "Cancelled"@
            && task_state_name(v) == "已取消"@,
        v == TaskState::Failed ==> v.label() == "failed"@ && v.shown() == "Failed"@
            && task_state_name(v) == "失败"@,
{
}

/// The words for the status of a session.
pub proof fn words_for_codex_session_status(v: CodexSessionStatus)
    ensures
        v == CodexSessionStatus::Running ==> v.label() == "running"@ && v.shown()
            == "Running"@ && session_status_name(v) == "运行中"@,
        v == CodexSessionStatus::Succeeded ==> v.label() == "succeeded"@ && v.shown()
            == "Succeeded"@ && session_status_name(v) == "成功"@,
        v == CodexSessionStatus::Failed ==> v.label() == "failed"@ && v.shown() == "Failed"@
            && session_status_name(v) == "失败"@,
{
}

/// The words for the mode of a session.
pub proof fn words_for_session_mode(v: SessionMode)
    ensures
        v == SessionMode::Round ==> v.label() == "round"@ && v.shown() == "Round"@
            && session_mode_name(v) == "轮次"@,
        v == SessionMode::Pty ==> v.label() == "pty"@ && v.shown() == "Pty"@
            && session_mode_name(v) == "终端"@,
        v == SessionMode::AppServer ==> v.label() == "app_server"@ && v.shown()
            == "AppServer"@ && session_mode_name(v) == "App Server"@,
{
}

/// The words for a bridge that is connected or not.
pub proof fn words_for_bridge_connection_state(v: BridgeConnectionState)
    ensures
        v == BridgeConnectionState::Disconnected ==> v.label() == "disconnected"@ && v.shown()
            == "Disconnected"@,
        v == BridgeConnectionState::Connected ==> v.label() == "connected"@ && v.shown()
            == "Connected"@,
{
}

/// The words for the mode of a bridge.
pub proof fn words_for_bridge_mode(v: BridgeMode)
    ensures
        v == BridgeMode::Passive ==> v.label() == "passive"@,
        v == BridgeMode::Autorun ==> v.label() == "autorun"@,
{
}

/// The words for the owner of an app server.
pub proof fn words_for_app_server_owner(v: AppServerOwner)
    ensures
        v == AppServerOwner::Bridge ==> v.label() == "bridge"@ && app_server_owner_name(v) == "桥接"@,
        v == AppServerOwner::Daemon ==> v.label() == "daemon"@ && app_server_owner_name(v)
            == "中心托管"@,
{
}

/// The words for the kind of a window.
pub proof fn words_for_visible_pane_kind(v: VisiblePaneKind)
    ensures
        v == VisiblePaneKind::Shell ==> v.label() == "shell"@ && v.shown() == "Shell"@,
        v == VisiblePaneKind::View ==> v.label() == "view"@ && v.shown() == "View"@,
{
}

/// The words for the status of a round.
pub proof fn words_for_task_round_status(v: TaskRoundStatus)
    ensures
        v == TaskRoundStatus::Result ==> v.label() == "result"@,
        v == TaskRoundStatus::Report ==> v.label() == "report"@,
        v == TaskRoundStatus::WaitDecision ==> v.label() == "wait_decision"@,
{
}

/// The words for the kind of a delivery.
pub proof fn words_for_bridge_delivery_kind(v: BridgeDeliveryKind)
    ensures
        v == BridgeDeliveryKind::TaskDispatch ==> v.label() == "task_dispatch"@ && v.shown()
            == "TaskDispatch"@,
        v == BridgeDeliveryKind::TaskFeedback ==> v.label() == "task_feedback"@ && v.shown()
            == "TaskFeedback"@,
        v == BridgeDeliveryKind::TaskCancelled ==> v.label() == "task_cancelled"@ && v.shown()
            == "TaskCancelled"@,
        v == BridgeDeliveryKind::TaskClosed ==> v.label() == "task_closed"@ && v.shown()
            == "TaskClosed"@,
        v == BridgeDeliveryKind::SyncRequired ==> v.label() == "sync_required"@ && v.shown()
            == "SyncRequired"@,
{
}

/// The words for a stream of output, and for what a trace is asked by.
pub proof fn words_for_streams_and_traces(stream: BackendStream, kind: TraceKind)
    ensures
        stream == BackendStream::Stdout ==> stream.label() == "stdout"@,
        stream == BackendStream::Stderr ==> stream.label() == "stderr"@,
        kind == TraceKind::Agent ==> kind.label() == "agent"@,
        kind == TraceKind::Task ==> kind.label() == "task"@,
        kind == TraceKind::Session ==> kind.label() == "session"@,
{
}

/// A status of a round is read by its word, and by no other.
pub proof fn round_status_is_read(s: Seq<char>, status: TaskRoundStatus)
    ensures
        round_status_named(status.label()) == Ok::<TaskRoundStatus, Seq<char>>(status),
        round_status_named(s) matches Ok(read) ==> s == read.label(),
{
    reveal_strlit("result");
    reveal_strlit("report");
    reveal_strlit("wait_decision");
    assert("result"@[2] != "report"@[2]);
    assert("wait_decision"@.len() != "report"@.len());
}

/// What is stored is read by its words. A word that is not known counts as a child, as
/// idle, as waiting for the bootstrap, as not connected, as passive, as the bridge, as a
/// shell, as a round, as running, or as waiting.
pub proof fn stored_words_are_read(s: Seq<char>)
    ensures
        stored_role(s) == AgentRole::Main <==> s == "main"@,
        stored_bootstrap_state(s) == AgentBootstrapState::Ready <==> s == "ready"@,
        stored_bridge_state(s) == BridgeConnectionState::Connected <==> s == "connected"@,
        stored_bridge_mode(s) == BridgeMode::Autorun <==> s == "autorun"@,
        stored_app_server_owner(s) == AppServerOwner::Daemon <==> s == "daemon"@,
        stored_visible_pane_kind(s) == VisiblePaneKind::View <==> s == "view"@,
        stored_agent_state(s).label() == s || stored_agent_state(s) == AgentSessionState::Idle,
        stored_session_mode(s).label() == s || stored_session_mode(s) == SessionMode::Round,
        stored_codex_session_status(s).label() == s || stored_codex_session_status(s)
            == CodexSessionStatus::Running,
        stored_task_state(s).label() == s || stored_task_state(s) == TaskState::Pending,
{
}

/// A number that was stored is read back where it fits, one that is too large is kept as the
/// largest, one below zero counts as zero, and what cannot be a process counts as none.
pub proof fn stored_numbers_are_read_back(n: u64, small: u32, stored: i64, pid: Option<u32>)
    ensures
        n <= i64::MAX ==> read_number(stored_number(n)) == n,
        n > i64::MAX ==> stored_number(n) == i64::MAX,
        read_small(small as i64) == small,
        stored < 0 ==> read_number(stored) == 0 && read_small(stored) == 0 && read_pid(Some(stored))
            is None,
        stored > u32::MAX ==> read_pid(Some(stored)) is None,
        read_pid(stored_pid(pid)) == pid,
        read_pid(None) is None,
{
}

/// A number is written in digits, without a leading zero where it is not zero.
pub proof fn number_is_written_in_digits(n: nat)
    ensures
        decimal(n).len() > 0,
        forall|i: int| 0 <= i < decimal(n).len() ==> is_digit(#[trigger] decimal(n)[i]),
        n > 0 ==> decimal(n)[0] != '0',
    decreases n,
{
    if n >= 10 {
        number_is_written_in_digits(n / 10);
        lemma_digit(n % 10);
    } else {
        lemma_digit(n);
    }
}

proof fn lemma_digit(n: nat)
    requires
        n < 10,
    ensures
        is_digit(digit(n)),
        digit(n) as nat - '0' as nat == n,
        n > 0 ==> digit(n) != '0',
{
    assert(digit(n) as u32 == 48 + n);
}

/// What was written is the number: reading its digits gives it back.
pub proof fn written_number_is_read_back(n: nat)
    ensures
        value_of(decimal(n)) == n,
    decreases n,
{
    if n >= 10 {
        written_number_is_read_back(n / 10);
        lemma_digit(n % 10);
        let s = decimal(n);
        assert(s.drop_last() =~= decimal(n / 10));
        assert(s.last() == digit(n % 10));
        assert(10 * (n / 10) + n % 10 == n);
    } else {
        lemma_digit(n);
        let s = decimal(n);
        assert(s.drop_last().len() == 0);
        assert(value_of(s.drop_last()) == 0);
    }
}

/// Two numbers are written alike only where they are the same.
pub proof fn numbers_are_told_apart(a: nat, b: nat)
    requires
        decimal(a) == decimal(b),
    ensures
        a == b,
{
    written_number_is_read_back(a);
    written_number_is_read_back(b);
}

/// A number that is given is read where it is written in digits, with or without a plus sign
/// in front; anything else, and what does not fit, is no number.
pub proof fn given_number_is_read(n: u64, s: Seq<char>)
    ensures
        number_in(decimal(n as nat)) == Some(n),
        number_in(seq!['+'] + decimal(n as nat)) == Some(n),
        s.len() == 0 ==> number_in(s) is None,
        s == seq!['+'] ==> number_in(s) is None,
        forall|i: int|
            0 <= i < s.len() && !is_digit(#[trigger] s[i]) && !(i == 0 && s[i] == '+')
                ==> number_in(s) is None,
{
    let d = decimal(n as nat);
    number_is_written_in_digits(n as nat);
    written_number_is_read_back(n as nat);
    assert(is_digit(d[0]));
    assert(unsigned_part(d) == d);
    let p = seq!['+'] + d;
    assert(p.skip(1) =~= d);
    assert(unsigned_part(p) == d);
    assert forall|i: int|
        0 <= i < s.len() && !is_digit(#[trigger] s[i]) && !(i == 0 && s[i]
            == '+') implies number_in(
        s,
    ) is None by {
        let digits = unsigned_part(s);
        if s[0] == '+' {
            assert(digits[i - 1] == s[i]);
        } else {
            assert(digits[i] == s[i]);
        }
    }
    if s == seq!['+'] {
        assert(s.skip(1).len() == 0);
    }
}

/// A timeout is the number that is given, where it is one above zero, and the fallback
/// otherwise.
pub proof fn timeout_is_the_number_given(n: u64, s: Seq<char>, fallback: u64)
    ensures
        n > 0 ==> seconds_or(Some(decimal(n as nat)), fallback) == n,
        seconds_or(Some(decimal(0)), fallback) == fallback,
        seconds_or(None, fallback) == fallback,
        number_in(s) is None ==> seconds_or(Some(s), fallback) == fallback,
        fallback > 0 ==> seconds_or(Some(s), fallback) > 0,
{
    given_number_is_read(n, s);
    given_number_is_read(0, s);
}

/// Capitals become small letters, one for one, and nothing else changes; a text that has
/// none stays as it is.
pub proof fn small_letters_stay(s: Seq<char>)
    ensures
        lower(s).len() == s.len(),
        lower(lower(s)) == lower(s),
        forall|i: int|
            0 <= i < s.len() && !('A' <= #[trigger] s[i] <= 'Z') ==> lower(s)[i] == s[i],
        forall|i: int|
            0 <= i < s.len() && 'A' <= #[trigger] s[i] <= 'Z' ==> 'a' <= lower(s)[i] <= 'z'
                && lower(s)[i] as int - 'a' as int == s[i] as int - 'A' as int,
{
    assert forall|i: int| 0 <= i < s.len() && 'A' <= #[trigger] s[i] <= 'Z' implies 'a' <= lower(
        s,
    )[i] <= 'z' && lower(s)[i] as int - 'a' as int == s[i] as int - 'A' as int by {
        assert(lower(s)[i] == lower_char(s[i]));
    }
    assert forall|i: int| 0 <= i < s.len() implies #[trigger] lower(lower(s))[i] == lower(s)[i] by {
        let c = s[i];
        assert(lower(s)[i] == lower_char(c));
        assert(lower(lower(s))[i] == lower_char(lower_char(c)));
    }
    assert(lower(lower(s)) =~= lower(s));
}

/// A text is joined from its items in their order, with the separator between each two and
/// nowhere else.
pub proof fn joined_texts_are_in_order(
    items: Seq<Seq<char>>,
    more: Seq<char>,
    sep: Seq<char>,
)
    ensures
        joined(Seq::empty(), sep).len() == 0,
        joined(seq![more], sep) == more,
        items.len() > 0 ==> joined(items.push(more), sep) == joined(items, sep) + sep + more,
{
    if items.len() > 0 {
        assert(items.push(more).drop_last() =~= items);
    }
}

/// A text that is shown short is its beginning: all of it where it fits, else so many
/// characters and three dots.
pub proof fn shown_short_is_the_beginning(s: Seq<char>, max: nat)
    ensures
        s.len() <= max ==> shortened(s, max) == s,
        s.len() > max ==> shortened(s, max).len() == max + 3 && shortened(s, max).take(max as int)
            == s.take(max as int),
        forall|i: int| max <= i < max + 3 && s.len() > max ==> #[trigger] shortened(s, max)[i]
            == '.',
{
    reveal_strlit("...");
    if s.len() > max {
        assert(shortened(s, max).take(max as int) =~= s.take(max as int));
    }
}

/// White space is the blank, the tabulator and the ends of lines, among others; nothing that
/// is printed in ASCII is.
pub proof fn printed_characters_are_no_space(c: char)
    ensures
        c == ' ' || c == '\t' || c == '\n' || c == '\r' ==> is_space(c),
        '!' <= c <= '~' ==> !is_space(c),
{
}

/// A text begins with its first part and ends with its last; and every part stands in it.
pub proof fn parts_stand_in_the_text(a: Seq<char>, b: Seq<char>, c: Seq<char>)
    ensures
        begins_with(a + b, a),
        finishes_with(a + b, b),
        holds_part(a + b + c, b),
        begins_with(b, a) ==> b == a + b.skip(a.len() as int),
        finishes_with(b, a) ==> b == b.take(b.len() - a.len()) + a,
{
    assert((a + b).take(a.len() as int) =~= a);
    assert((a + b).skip((a + b).len() - b.len()) =~= b);
    let s = a + b + c;
    assert(s.subrange(a.len() as int, (a.len() + b.len()) as int) =~= b);
    assert(part_at(s, b, a.len() as int));
    if begins_with(b, a) {
        assert(b =~= a + b.skip(a.len() as int));
    }
    if finishes_with(b, a) {
        assert(b =~= b.take(b.len() - a.len()) + a);
    }
}

/// The words that messages show for the status of a round, and for a list of states.
pub proof fn words_for_messages(
    status: TaskRoundStatus,
    states: Seq<TaskState>,
    more: TaskState,
)
    ensures
        status == TaskRoundStatus::Result ==> round_status_shown(status) == "Result"@,
        status == TaskRoundStatus::Report ==> round_status_shown(status) == "Report"@,
        status == TaskRoundStatus::WaitDecision ==> round_status_shown(status) == "WaitDecision"@,
        shown_states(seq![more]) == "["@ + more.shown() + "]"@,
        states.len() > 0 ==> shown_items(states.push(more)) == shown_items(states) + ", "@
            + more.shown(),
{
    if states.len() > 0 {
        assert(states.push(more).drop_last() =~= states);
    }
}

} // verus!
