//! The course of a daemon: everything that can happen to its state, one after another.

use vstd::prelude::*;

use crate::backend::{BackendEvent, BackendFinished};
use crate::bridge::ConnectionModel;
use crate::control::ControlRequest;
use crate::dispatch::RequestFacts;
use crate::models::{
    AgentModel, AppServerOwner, BridgeClientMessage, DraftModel, PayloadModel, RoundModel,
    RuntimeEventModel, SessionModel,
};
use crate::removal::{DeletedRows, PlanModel};
use crate::rounds::RoundStartModel;
use crate::sessions::{StopModel, VisiblePaneStopOutcome};
use crate::state::World;
use crate::time::Timestamp;

verus! {

/// One thing that happens to the state.
#[allow(inconsistent_fields)]
pub enum Happening {
    /// A request comes in.
    Request { request: ControlRequest, facts: RequestFacts, fresh: Seq<char> },
    /// A round has drafted a task.
    TaskDrafted {
        from: Seq<char>,
        to: Seq<char>,
        draft: DraftModel,
        reason: Seq<char>,
        task_id: Seq<char>,
    },
    /// A bridge says something.
    BridgeSpoke { connection: ConnectionModel, message: BridgeClientMessage, fresh: Seq<char> },
    /// A bridge is gone.
    BridgeLeft { connection: ConnectionModel },
    /// A round outside any task begins.
    AdHocBegun { agent: Seq<char> },
    /// The process of a round was started.
    RoundStarted { session: SessionModel },
    /// The process of a round or of an app server says something.
    RoundSpoke { session_id: Seq<char>, agent: Seq<char>, event: BackendEvent },
    /// The process of a round has ended.
    RoundEnded { session_id: Seq<char>, agent: Seq<char>, finished: BackendFinished },
    /// A round outside any task has a result.
    AdHocFinished {
        agent: Seq<char>,
        round: RoundModel,
        kept_thread: Option<Seq<char>>,
        missing: Seq<char>,
    },
    /// A round outside any task has failed.
    AdHocFailed { agent: Seq<char>, message: Seq<char> },
    /// A round of a task has a result.
    TaskRoundFinished {
        start: RoundStartModel,
        round: RoundModel,
        payload: Option<PayloadModel>,
        decision_id: Seq<char>,
    },
    /// A round of a task has failed.
    TaskRoundFailed { start: RoundStartModel, message: Seq<char> },
    /// An app server was started.
    ServerStarted { session: SessionModel },
    /// An app server listens.
    ServerListens { agent: Seq<char>, url: Seq<char> },
    /// The bootstrap on an app server has reported.
    ServerReported {
        agent: Seq<char>,
        session_id: Seq<char>,
        url: Seq<char>,
        final_message: Seq<char>,
        thread_id: Seq<char>,
    },
    /// The bootstrap on an app server has failed.
    ServerFailed { agent: Seq<char>, reason: Seq<char> },
    /// The app server of an agent is given up.
    ServerReset { agent: Seq<char>, reason: Seq<char> },
    /// An app server has ended.
    ServerEnded {
        agent: Seq<char>,
        session_id: Seq<char>,
        lines: Seq<Seq<char>>,
        success: bool,
        stopped: bool,
        status_label: Seq<char>,
    },
    /// A session was asked to stop.
    StopAsked { stop: StopModel },
    /// A window was stopped.
    PaneStopped { agent: AgentModel, pid: u32, outcome: VisiblePaneStopOutcome },
    /// The rows of an agent were deleted.
    AgentRemoved { agent: Seq<char>, plan: PlanModel, rows: DeletedRows },
    /// The rows of the demonstration were deleted.
    DemoRemoved { requested_by: Seq<char>, plan: PlanModel, rows: DeletedRows },
    /// An entry of the ledger was stored.
    EventStored { event: RuntimeEventModel },
    /// The effects were taken to be performed.
    EffectsTaken,
    /// The daemon starts: the main agent is there.
    MainFound { main_cwd: Seq<char>, prompt: Option<Seq<char>> },
    /// The daemon starts: the prompt of an agent is found.
    PromptFound { agent: Seq<char>, main_cwd: Seq<char>, prompt: Option<Seq<char>> },
    /// The daemon starts: the tasks mirror the decisions.
    MirrorsRenewed,
    /// The daemon starts: sessions of an earlier run are over.
    SessionsRecovered,
    /// The daemon starts: the agents are brought into line.
    AgentsNormalized,
    /// The daemon starts: a window is no longer there.
    PaneMissed { agent: Seq<char>, pid: u32 },
}

impl World {
    /// The state after something has happened.
    pub open spec fn after(self, h: Happening, now: Timestamp) -> World {
        match h {
            Happening::Request { request, facts, fresh } => self.dispatch(
                request,
                facts,
                fresh,
                now,
            ).0,
            Happening::TaskDrafted { from, to, draft, reason, task_id } => self.create_task(
                from,
                to,
                draft,
                None,
                None,
                reason,
                task_id,
                now,
            ).0,
            Happening::BridgeSpoke { connection, message, fresh } => self.bridge_message(
                connection,
                message,
                fresh,
                now,
            ).0,
            Happening::BridgeLeft { connection } => self.close_connection(connection, now),
            Happening::AdHocBegun { agent } => self.start_ad_hoc_round(agent, now).0,
            Happening::RoundStarted { session } => self.start_round_session(session, now).0,
            Happening::RoundSpoke { session_id, agent, event } => self.session_event(
                session_id,
                agent,
                event,
                now,
            ),
            Happening::RoundEnded { session_id, agent, finished } => self.finish_round_session(
                session_id,
                agent,
                finished,
                now,
            ).0,
            Happening::AdHocFinished { agent, round, kept_thread, missing } =>
                self.finish_ad_hoc_round(agent, round, kept_thread, missing, now).0,
            Happening::AdHocFailed { agent, message } => self.fail_ad_hoc_round(
                agent,
                message,
                now,
            ).0,
            Happening::TaskRoundFinished { start, round, payload, decision_id } =>
                self.finish_task_round(start, round, payload, decision_id, now).0,
            Happening::TaskRoundFailed { start, message } => self.fail_task_round(
                start,
                message,
                now,
            ).0,
            Happening::ServerStarted { session } => self.managed_started(session),
            Happening::ServerListens { agent, url } => self.set_app_server(
                agent,
                Some(url),
                Some(AppServerOwner::Daemon),
                now,
            ).0,
            Happening::ServerReported { agent, session_id, url, final_message, thread_id } =>
                self.managed_reported(agent, session_id, url, final_message, thread_id, now).0,
            Happening::ServerFailed { agent, reason } => self.managed_failed(agent, reason, now).0,
            Happening::ServerReset { agent, reason } => self.reset_app_server(
                agent,
                reason,
                now,
            ).0,
            Happening::ServerEnded {
                agent,
                session_id,
                lines,
                success,
                stopped,
                status_label,
            } => self.managed_finished(
                agent,
                session_id,
                lines,
                success,
                stopped,
                status_label,
                now,
            ),
            Happening::StopAsked { stop } => self.note_stop(stop, now),
            Happening::PaneStopped { agent, pid, outcome } => self.pane_stopped(
                agent,
                pid,
                outcome,
                now,
            ).0,
            Happening::AgentRemoved { agent, plan, rows } => self.apply_removal(
                agent,
                plan,
                rows,
            ).0,
            Happening::DemoRemoved { requested_by, plan, rows } => self.apply_cleanup(
                requested_by,
                plan,
                rows,
                now,
            ).0,
            Happening::EventStored { event } => self.remember_event(event),
            Happening::EffectsTaken => World { outbox: Seq::empty(), ..self },
            Happening::MainFound { main_cwd, prompt } => self.ensure_main_agent(
                main_cwd,
                prompt,
                now,
            ),
            Happening::PromptFound { agent, main_cwd, prompt } => self.sync_prompt(
                agent,
                main_cwd,
                prompt,
            ),
            Happening::MirrorsRenewed => self.sync_task_decisions(),
            Happening::SessionsRecovered => self.recover_stale_sessions(now).0,
            Happening::AgentsNormalized => self.normalize_agents(now),
            Happening::PaneMissed { agent, pid } => self.recover_pane(agent, pid, now).0,
        }
    }

    /// The state after a course of happenings, each with its time.
    pub open spec fn in_the_end(self, course: Seq<(Happening, Timestamp)>) -> World
        decreases course.len(),
    {
        if course.len() == 0 {
            self
        } else {
            let (h, now) = course.last();
            self.in_the_end(course.drop_last()).after(h, now)
        }
    }
}

} // verus!
